//! Luxand FaceSDK library: the verified part of the Rust wrapper.

pub mod canvas;
pub mod consts;
pub mod error;
pub mod fsdk;
pub mod geometry;
pub mod native;
pub mod overlay;
pub mod platform;
pub mod text;

pub use error::{check_result, FsdkError, Result};
pub use fsdk::{Camera, Image, Tracker, FSDK};
pub use geometry::{BBox, Eyes, Face, FacePosition, FaceTemplate, Features, Point};
pub use native::{NativeCall, NativeReply};
