//! Response-shaping layer that wraps API payloads in envelopes carrying
//! HATEOAS navigation links and pagination metadata.

pub mod collection;
pub mod error;
pub mod link;
pub mod pagination;
pub mod resource;

pub use collection::{CollectionMeta, CollectionResponse};
pub use error::HateoasError;
pub use link::{Link, LinkSpec, Links};
pub use pagination::PaginationParams;
pub use resource::HateoasResponse;
