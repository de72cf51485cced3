//! The logic of a small HTTP service that keeps products in one table: how a
//! request is read and routed, what is asked of the storage for it, and
//! what is answered. The service does no input or output of its own: the
//! caller reads the request, runs the statement and sends the response.

pub mod command;
pub mod handler;
pub mod json;
pub mod laws;
pub mod number;
pub mod product;
pub mod request;
pub mod response;
pub mod route;
pub mod text;

pub use command::{Command, Param};
pub use handler::{handle_client, respond, Outcome, Step};
pub use product::Product;
pub use request::{get_id, get_product_request_body, request_text};
pub use response::Response;
pub use route::{route, Route};
