//! Current-weather lookup core: input validation, fixed-window rate limiting,
//! cache addressing, icon derivation and the request pipeline that ties them
//! together. Network and store traffic happen outside; this crate decides.
pub mod enrich;
pub mod limiter;
pub mod measure;
pub mod model;
pub mod pipeline;
pub mod validate;
