/// The orbiting perspective camera and its builder.
pub mod camera;
/// The device context and the registry of named resources.
pub mod context;
/// The commands of a frame and the encoder that records them.
pub mod encoder;
/// The frame orchestrator: the passes of a frame in their order.
pub mod graphics;
/// The pass of the user interface.
pub mod gui;
/// Vectors, quaternions and matrices of single-precision numbers.
pub mod math;
/// Drawable objects and their builder.
pub mod model;
/// The program's state and what the window's events do to it.
pub mod program;
/// Stores of resources under labels.
pub mod registry;
/// The scene pass.
pub mod renderer;
/// The plain values that describe resources.
pub mod resource;
/// Outlines of flat shapes.
pub mod shape;
/// Vertices, their layout in a buffer, and the meshes that are built in.
pub mod vertex_input;
/// Transforms, meshes and the world of models.
pub mod world;
