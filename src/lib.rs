//! Server-side rendering of a JavaScript bundle: the bundle's callable exports
//! are found, each is called with the request's parameters, and their string
//! results are joined in export order.
pub mod bundle;
pub mod exports;
pub mod laws;
pub mod reviews;
pub mod session;
pub mod ssr;
