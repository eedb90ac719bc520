//! A logging core for a long-running bot service: origin filtering, severity
//! mapping, record formatting in text or in the cloud logging service's JSON
//! schema, the health listener's configuration, and the supervision policy
//! between the primary client and the health listener.

pub mod level;
pub mod filter;
pub mod logger;
pub mod health;
pub mod supervisor;
pub mod cloud;
