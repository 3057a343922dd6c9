pub mod integrator;
pub mod trapezoid_integrator;
