//! The deciding half of a Monte-Carlo path tracer.
//!
//! A path tracer follows rays of light backwards, from the camera into a
//! scene, and at every step it computes and it decides: it computes where
//! a ray could meet a surface, and decides whether that counts and which
//! meeting is the nearest. This crate holds the decisions, each with a
//! contract that says which outcome belongs to which inputs. The
//! arithmetic stays with the caller, who hands its results in.
//!
//! A number is a [`scalar::Scalar`]: an IEEE-754 binary64 value held by its
//! bit pattern, so that its order and its sign are questions about
//! integers.
//!
//! - [`scalar`], [`interval`], [`vec3`], [`ray`]: numbers, ranges, vectors
//!   by role, rays.
//! - [`hittables`]: what a ray meets, shape by shape, and the nearest of
//!   several meetings.
//! - [`materials`]: what a surface gives back of the light.
//! - [`camera`]: the depth of a path, and the seeds of the rows.
//! - [`color`], [`ppm`], [`image`], [`text`]: the picture as a file.
//! - [`progress`]: the progress bar.
//! - [`degenerate`], [`viewport`]: what is refused when a scene is built.
//! - [`examples`]: the list of the sample pictures.

pub mod camera;
pub mod color;
pub mod degenerate;
pub mod examples;
pub mod hittables;
pub mod image;
pub mod interval;
pub mod materials;
pub mod ppm;
pub mod progress;
pub mod ray;
pub mod scalar;
pub mod text;
pub mod vec3;
pub mod viewport;
