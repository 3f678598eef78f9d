//! Stamps a short message into the raw pixel bytes of an image and
//! re-encodes the result.

pub mod codec;
pub mod laws;
pub mod model;
pub mod stamper;

pub use model::{ImageModel, StampError};

pub use stamper::{
    decoded_model, encoded, loaded_model, loads, output_path, stamp, StampedImage, Stamper,
};
