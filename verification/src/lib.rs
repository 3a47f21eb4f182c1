//! Resolving a product from a scanned barcode: reading the barcode out of an
//! image, looking it up in a public food-product catalog, turning the
//! catalog's answer into the service's own record, and storing that record
//! once.
//!
//! Each stage has a module of its own: [`barcode`] reads the barcode,
//! [`catalog`] says where to ask and reads the answer, [`product`] holds the
//! records and the mapping between them, [`store`] keeps a product from
//! being stored twice, and [`ingest`] puts the stages in their order.
//! [`error`] names the ways a request can fail.

pub mod barcode;
pub mod catalog;
pub mod copy;
pub mod error;
pub mod ingest;
pub mod product;
pub mod store;
pub mod user;
