//! Plain descriptions of the device resources that the stages create and bind.

use vstd::prelude::*;

verus! {

/// Four single-precision components, each held as its bit pattern.
#[derive(Clone, Copy, Debug, PartialEq, Eq, Structural)]
pub struct Vec4 {
    pub x: u32,
    pub y: u32,
    pub z: u32,
    pub w: u32,
}

/// The bit pattern of the single-precision value one.
pub const ONE: u32 = 0x3f80_0000u32;

/// The placement of a chunk in the world, as the four columns of a matrix.
#[derive(Clone, Copy, Debug, PartialEq, Eq, Structural)]
pub struct GlobalTransform {
    pub x_axis: Vec4,
    pub y_axis: Vec4,
    pub z_axis: Vec4,
    pub w_axis: Vec4,
}

impl GlobalTransform {
    /// The transform that moves nothing.
    pub open spec fn identity() -> GlobalTransform {
        GlobalTransform {
            x_axis: Vec4 { x: ONE, y: 0, z: 0, w: 0 },
            y_axis: Vec4 { x: 0, y: ONE, z: 0, w: 0 },
            z_axis: Vec4 { x: 0, y: 0, z: ONE, w: 0 },
            w_axis: Vec4 { x: 0, y: 0, z: 0, w: ONE },
        }
    }
}

impl Default for GlobalTransform {
    fn default() -> (t: GlobalTransform)
        ensures
            t == GlobalTransform::identity(),
    {
        GlobalTransform {
            x_axis: Vec4 { x: ONE, y: 0, z: 0, w: 0 },
            y_axis: Vec4 { x: 0, y: ONE, z: 0, w: 0 },
            z_axis: Vec4 { x: 0, y: 0, z: ONE, w: 0 },
            w_axis: Vec4 { x: 0, y: 0, z: 0, w: ONE },
        }
    }
}

/// What a buffer may be used for.
#[derive(Clone, Copy, Debug, PartialEq, Eq, Structural)]
pub struct BufferUsages {
    pub vertex: bool,
    pub uniform: bool,
    pub copy_dst: bool,
}

/// A device buffer, described by the bytes it was created with.
#[derive(Debug)]
pub struct Buffer {
    pub contents: Vec<u8>,
    pub usage: BufferUsages,
}

/// The mathematical value of a [`Buffer`].
pub struct BufferView {
    pub contents: Seq<u8>,
    pub usage: BufferUsages,
}

impl View for Buffer {
    type V = BufferView;

    open spec fn view(&self) -> BufferView {
        BufferView { contents: self.contents@, usage: self.usage }
    }
}

impl Clone for Buffer {
    fn clone(&self) -> (copy: Buffer)
        ensures
            copy@ == self@,
    {
        Buffer { contents: self.contents.clone(), usage: self.usage }
    }
}

/// The shader stages that can see a binding.
#[derive(Clone, Copy, Debug, PartialEq, Eq, Structural)]
pub struct ShaderStages {
    pub vertex: bool,
    pub fragment: bool,
}

/// The layout of a bind group with a single uniform buffer binding.
#[derive(Clone, Copy, Debug, PartialEq, Eq, Structural)]
pub struct BindGroupLayout {
    pub binding: u32,
    pub visibility: ShaderStages,
    pub has_dynamic_offset: bool,
    pub min_binding_size: Option<u64>,
}

/// A bind group with a single buffer bound to it.
#[derive(Debug)]
pub struct BindGroup {
    pub layout: BindGroupLayout,
    pub binding: u32,
    pub buffer: Buffer,
    pub offset: u64,
    pub size: Option<u64>,
}

/// The mathematical value of a [`BindGroup`].
pub struct BindGroupView {
    pub layout: BindGroupLayout,
    pub binding: u32,
    pub buffer: BufferView,
    pub offset: u64,
    pub size: Option<u64>,
}

impl View for BindGroup {
    type V = BindGroupView;

    open spec fn view(&self) -> BindGroupView {
        BindGroupView {
            layout: self.layout,
            binding: self.binding,
            buffer: self.buffer@,
            offset: self.offset,
            size: self.size,
        }
    }
}

impl Clone for BindGroup {
    fn clone(&self) -> (copy: BindGroup)
        ensures
            copy@ == self@,
    {
        BindGroup {
            layout: self.layout,
            binding: self.binding,
            buffer: self.buffer.clone(),
            offset: self.offset,
            size: self.size,
        }
    }
}

} // verus!
