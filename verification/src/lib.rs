//! Identity registry and service-provider voting, as two runtime modules
//! whose storage and dispatchable calls are modelled and verified.
pub mod dispatch;
pub mod limited_vec;
pub mod service_provider;
pub mod user_identity;
