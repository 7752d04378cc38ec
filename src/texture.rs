use vstd::prelude::*;

verus! {

/// `D3D11_USAGE_DEFAULT`: a texture that only the GPU reads and writes.
pub const USAGE_DEFAULT: i32 = 0;

/// `D3D11_USAGE_STAGING`: a texture meant for transfers between GPU and CPU.
pub const USAGE_STAGING: i32 = 3;

/// `D3D11_CPU_ACCESS_READ`: the CPU may map the texture for reading.
pub const CPU_ACCESS_READ: u32 = 0x20000;

/// `D3D11_BIND_SHADER_RESOURCE`: the texture may be bound as a shader input.
pub const BIND_SHADER_RESOURCE: u32 = 0x8;

/// The description of a 2D GPU texture, as plain values.
#[derive(Clone, Copy, Debug, PartialEq, Eq, Structural)]
pub struct TextureDesc {
    pub width: u32,
    pub height: u32,
    pub mip_levels: u32,
    pub array_size: u32,
    pub format: u32,
    pub sample_count: u32,
    pub sample_quality: u32,
    pub usage: i32,
    pub bind_flags: u32,
    pub cpu_access_flags: u32,
    pub misc_flags: u32,
}

/// A texture that the CPU can map for reading as it stands.
pub open spec fn is_staging_readable(d: TextureDesc) -> bool {
    d.usage == USAGE_STAGING && (d.cpu_access_flags & CPU_ACCESS_READ) != 0
}

/// The description of a copy of `d`: same size, format and layout, with the
/// usage, binding, CPU access and miscellaneous flags set for its role.
pub open spec fn copy_desc_of(d: TextureDesc, as_staging: bool) -> TextureDesc {
    TextureDesc {
        usage: if as_staging { USAGE_STAGING } else { USAGE_DEFAULT },
        bind_flags: if as_staging { 0 } else { BIND_SHADER_RESOURCE },
        cpu_access_flags: if as_staging { CPU_ACCESS_READ } else { 0 },
        misc_flags: 0,
        ..d
    }
}

/// How a texture becomes readable by the CPU.
#[derive(Clone, Copy, Debug, PartialEq, Eq, Structural)]
pub enum StagingPlan {
    /// The texture is already a CPU-readable staging texture: map it directly.
    Direct,
    /// Allocate a texture with this description and copy the source into it.
    Copy(TextureDesc),
}

impl TextureDesc {
    /// Whether the texture can be mapped for CPU reads without a copy.
    pub fn is_cpu_readable_staging(&self) -> (r: bool)
        ensures
            r == is_staging_readable(*self),
    {
        self.usage == USAGE_STAGING && (self.cpu_access_flags & CPU_ACCESS_READ) != 0
    }

    /// The description to allocate a copy of this texture with: a staging
    /// texture that the CPU reads, or a default texture that shaders read.
    pub fn copy_desc(&self, as_staging: bool) -> (r: TextureDesc)
        ensures
            r == copy_desc_of(*self, as_staging),
    {
        TextureDesc {
            usage: if as_staging { USAGE_STAGING } else { USAGE_DEFAULT },
            bind_flags: if as_staging { 0 } else { BIND_SHADER_RESOURCE },
            cpu_access_flags: if as_staging { CPU_ACCESS_READ } else { 0 },
            misc_flags: 0,
            ..*self
        }
    }

    /// Decides whether the texture is read in place or through a staging copy.
    pub fn staging_plan(&self) -> (r: StagingPlan)
        ensures
            is_staging_readable(*self) ==> r == StagingPlan::Direct,
            !is_staging_readable(*self) ==> r == StagingPlan::Copy(copy_desc_of(*self, true)),
            r matches StagingPlan::Copy(c) ==> is_staging_readable(c),
    {
        if self.is_cpu_readable_staging() {
            StagingPlan::Direct
        } else {
            let c = self.copy_desc(true);
            assert(0x20000u32 & 0x20000u32 != 0) by (bit_vector);
            StagingPlan::Copy(c)
        }
    }
}

} // verus!
