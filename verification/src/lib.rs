use vstd::prelude::*;

pub mod catalog;
pub mod coords;
pub mod hosts;
pub mod json;
pub mod response;
pub mod routes;
pub mod service;
pub mod storage;
pub mod strutil;
pub mod tilejson;

verus! {

pub use catalog::SharedData;
pub use catalog::TileMeta;
pub use coords::flip_row;
pub use hosts::is_host_valid;
pub use response::DataFormat;
pub use response::HttpResponse;
pub use routes::classify;
pub use routes::Route;
pub use service::get_service;
pub use storage::TilePool;

} // verus!
