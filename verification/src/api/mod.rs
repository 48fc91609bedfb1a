pub mod ApiRsvr;
pub mod model;
