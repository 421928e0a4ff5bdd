//! An image-compression pipeline core: decode dispatch with a fallback
//! chain, index-ordered transform operations, and encoder configuration
//! with quantization-table synthesis.

mod color;
mod dispatch;
mod encoder;
mod error;
mod image;
mod ops;
mod pipeline;
mod qtable;

pub use color::ColorSpace;
pub use color::NativeColorSpace;
pub use color::canonical_of_native;
pub use color::forced_output;
pub use color::native_of_canonical;
pub use color::needs_decode_transform;
pub use dispatch::DecodeStep;
pub use dispatch::SpecializedKind;
pub use dispatch::StepModel;
pub use dispatch::UniversalModel;
pub use dispatch::UniversalOutcome;
pub use dispatch::decode;
pub use dispatch::is_webp_ext;
pub use dispatch::looks_like_avif;
pub use dispatch::resolve_specialized;
pub use encoder::Codec;
pub use encoder::EncoderChoice;
pub use encoder::EncoderSubOptions;
pub use encoder::JpegOptions;
pub use encoder::MozJpegEncoder;
pub use encoder::MozJpegOptions;
pub use encoder::MozJpegPlan;
pub use encoder::PureCodec;
pub use encoder::codec_of_name;
pub use encoder::encode_image;
pub use encoder::encoder;
pub use encoder::extension_for;
pub use encoder::mozjpeg_options;
pub use encoder::native_of_choice;
pub use encoder::OutputColorChoice;
pub use error::ConfigError;
pub use error::DecodeError;
pub use error::EncodeError;
pub use error::OperationError;
pub use image::BitDepth;
pub use image::CanonicalImage;
pub use ops::Operation;
pub use ops::ResizeFilter;
pub use ops::ResizeRequest;
pub use pipeline::ResolvedConfig;
pub use pipeline::operations;
pub use qtable::TableFamily;
pub use qtable::chroma_base;
pub use qtable::luma_base;
pub use qtable::scaled_entry;
pub use qtable::scaled_table;
