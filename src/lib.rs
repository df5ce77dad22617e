//! A small weather page service: it turns a latitude/longitude query into a
//! request to the Open-Meteo forecast API and renders the current temperature
//! it answers with as an HTML fragment.
//!
//! The library holds every decision of that flow, with contracts: the
//! forecast URL, the extraction of `current.temperature_2m` from the JSON
//! body, the rendered fragments and the handling of each failure. Network
//! access and the HTTP server stay with the caller.

pub mod extract;
pub mod handler;
pub mod page;
