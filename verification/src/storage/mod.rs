pub mod s3;

pub use s3::ObjectMeta;
