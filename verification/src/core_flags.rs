use vstd::prelude::*;
use crate::flags::{FlagBits, Flags};
use crate::handles::VkFlags;

verus! {

/// The kind of `VkInstanceCreateFlags`, which declares no flag yet.
#[derive(Clone, Copy, Debug, PartialEq, Eq, Hash)]
pub struct VkInstanceCreateFlagBits;

pub type VkInstanceCreateFlags = Flags<VkInstanceCreateFlagBits>;

#[derive(Clone, Copy, Debug, PartialEq, Eq, Hash)]
pub enum VkFormatFeatureFlagBits {
    VK_FORMAT_FEATURE_SAMPLED_IMAGE_BIT,
    VK_FORMAT_FEATURE_STORAGE_IMAGE_BIT,
    VK_FORMAT_FEATURE_STORAGE_IMAGE_ATOMIC_BIT,
    VK_FORMAT_FEATURE_UNIFORM_TEXEL_BUFFER_BIT,
    VK_FORMAT_FEATURE_STORAGE_TEXEL_BUFFER_BIT,
    VK_FORMAT_FEATURE_STORAGE_TEXEL_BUFFER_ATOMIC_BIT,
    VK_FORMAT_FEATURE_VERTEX_BUFFER_BIT,
    VK_FORMAT_FEATURE_COLOR_ATTACHMENT_BIT,
    VK_FORMAT_FEATURE_COLOR_ATTACHMENT_BLEND_BIT,
    VK_FORMAT_FEATURE_DEPTH_STENCIL_ATTACHMENT_BIT,
    VK_FORMAT_FEATURE_BLIT_SRC_BIT,
    VK_FORMAT_FEATURE_BLIT_DST_BIT,
    VK_FORMAT_FEATURE_SAMPLED_IMAGE_FILTER_LINEAR_BIT,
    VK_FORMAT_FEATURE_SAMPLED_IMAGE_FILTER_CUBIC_BIT_IMG,
    VK_FORMAT_FEATURE_TRANSFER_SRC_BIT_KHR,
    VK_FORMAT_FEATURE_TRANSFER_DST_BIT_KHR,
}

impl FlagBits for VkFormatFeatureFlagBits {
    open spec fn spec_bits(&self) -> VkFlags {
        match self {
            VkFormatFeatureFlagBits::VK_FORMAT_FEATURE_SAMPLED_IMAGE_BIT => 0x00000001u32,
            VkFormatFeatureFlagBits::VK_FORMAT_FEATURE_STORAGE_IMAGE_BIT => 0x00000002u32,
            VkFormatFeatureFlagBits::VK_FORMAT_FEATURE_STORAGE_IMAGE_ATOMIC_BIT => 0x00000004u32,
            VkFormatFeatureFlagBits::VK_FORMAT_FEATURE_UNIFORM_TEXEL_BUFFER_BIT => 0x00000008u32,
            VkFormatFeatureFlagBits::VK_FORMAT_FEATURE_STORAGE_TEXEL_BUFFER_BIT => 0x00000010u32,
            VkFormatFeatureFlagBits::VK_FORMAT_FEATURE_STORAGE_TEXEL_BUFFER_ATOMIC_BIT =>
                0x00000020u32,
            VkFormatFeatureFlagBits::VK_FORMAT_FEATURE_VERTEX_BUFFER_BIT => 0x00000040u32,
            VkFormatFeatureFlagBits::VK_FORMAT_FEATURE_COLOR_ATTACHMENT_BIT => 0x00000080u32,
            VkFormatFeatureFlagBits::VK_FORMAT_FEATURE_COLOR_ATTACHMENT_BLEND_BIT => 0x00000100u32,
            VkFormatFeatureFlagBits::VK_FORMAT_FEATURE_DEPTH_STENCIL_ATTACHMENT_BIT =>
                0x00000200u32,
            VkFormatFeatureFlagBits::VK_FORMAT_FEATURE_BLIT_SRC_BIT => 0x00000400u32,
            VkFormatFeatureFlagBits::VK_FORMAT_FEATURE_BLIT_DST_BIT => 0x00000800u32,
            VkFormatFeatureFlagBits::VK_FORMAT_FEATURE_SAMPLED_IMAGE_FILTER_LINEAR_BIT =>
                0x00001000u32,
            VkFormatFeatureFlagBits::VK_FORMAT_FEATURE_SAMPLED_IMAGE_FILTER_CUBIC_BIT_IMG =>
                0x00002000u32,
            VkFormatFeatureFlagBits::VK_FORMAT_FEATURE_TRANSFER_SRC_BIT_KHR => 0x00004000u32,
            VkFormatFeatureFlagBits::VK_FORMAT_FEATURE_TRANSFER_DST_BIT_KHR => 0x00008000u32,
        }
    }

    fn bits(&self) -> (bits: VkFlags) {
        match self {
            VkFormatFeatureFlagBits::VK_FORMAT_FEATURE_SAMPLED_IMAGE_BIT => 0x00000001,
            VkFormatFeatureFlagBits::VK_FORMAT_FEATURE_STORAGE_IMAGE_BIT => 0x00000002,
            VkFormatFeatureFlagBits::VK_FORMAT_FEATURE_STORAGE_IMAGE_ATOMIC_BIT => 0x00000004,
            VkFormatFeatureFlagBits::VK_FORMAT_FEATURE_UNIFORM_TEXEL_BUFFER_BIT => 0x00000008,
            VkFormatFeatureFlagBits::VK_FORMAT_FEATURE_STORAGE_TEXEL_BUFFER_BIT => 0x00000010,
            VkFormatFeatureFlagBits::VK_FORMAT_FEATURE_STORAGE_TEXEL_BUFFER_ATOMIC_BIT =>
                0x00000020,
            VkFormatFeatureFlagBits::VK_FORMAT_FEATURE_VERTEX_BUFFER_BIT => 0x00000040,
            VkFormatFeatureFlagBits::VK_FORMAT_FEATURE_COLOR_ATTACHMENT_BIT => 0x00000080,
            VkFormatFeatureFlagBits::VK_FORMAT_FEATURE_COLOR_ATTACHMENT_BLEND_BIT => 0x00000100,
            VkFormatFeatureFlagBits::VK_FORMAT_FEATURE_DEPTH_STENCIL_ATTACHMENT_BIT => 0x00000200,
            VkFormatFeatureFlagBits::VK_FORMAT_FEATURE_BLIT_SRC_BIT => 0x00000400,
            VkFormatFeatureFlagBits::VK_FORMAT_FEATURE_BLIT_DST_BIT => 0x00000800,
            VkFormatFeatureFlagBits::VK_FORMAT_FEATURE_SAMPLED_IMAGE_FILTER_LINEAR_BIT =>
                0x00001000,
            VkFormatFeatureFlagBits::VK_FORMAT_FEATURE_SAMPLED_IMAGE_FILTER_CUBIC_BIT_IMG =>
                0x00002000,
            VkFormatFeatureFlagBits::VK_FORMAT_FEATURE_TRANSFER_SRC_BIT_KHR => 0x00004000,
            VkFormatFeatureFlagBits::VK_FORMAT_FEATURE_TRANSFER_DST_BIT_KHR => 0x00008000,
        }
    }
}

pub type VkFormatFeatureFlags = Flags<VkFormatFeatureFlagBits>;

#[derive(Clone, Copy, Debug, PartialEq, Eq, Hash)]
pub enum VkImageUsageFlagBits {
    VK_IMAGE_USAGE_TRANSFER_SRC_BIT,
    VK_IMAGE_USAGE_TRANSFER_DST_BIT,
    VK_IMAGE_USAGE_SAMPLED_BIT,
    VK_IMAGE_USAGE_STORAGE_BIT,
    VK_IMAGE_USAGE_COLOR_ATTACHMENT_BIT,
    VK_IMAGE_USAGE_DEPTH_STENCIL_ATTACHMENT_BIT,
    VK_IMAGE_USAGE_TRANSIENT_ATTACHMENT_BIT,
    VK_IMAGE_USAGE_INPUT_ATTACHMENT_BIT,
}

impl FlagBits for VkImageUsageFlagBits {
    open spec fn spec_bits(&self) -> VkFlags {
        match self {
            VkImageUsageFlagBits::VK_IMAGE_USAGE_TRANSFER_SRC_BIT => 0x00000001u32,
            VkImageUsageFlagBits::VK_IMAGE_USAGE_TRANSFER_DST_BIT => 0x00000002u32,
            VkImageUsageFlagBits::VK_IMAGE_USAGE_SAMPLED_BIT => 0x00000004u32,
            VkImageUsageFlagBits::VK_IMAGE_USAGE_STORAGE_BIT => 0x00000008u32,
            VkImageUsageFlagBits::VK_IMAGE_USAGE_COLOR_ATTACHMENT_BIT => 0x00000010u32,
            VkImageUsageFlagBits::VK_IMAGE_USAGE_DEPTH_STENCIL_ATTACHMENT_BIT => 0x00000020u32,
            VkImageUsageFlagBits::VK_IMAGE_USAGE_TRANSIENT_ATTACHMENT_BIT => 0x00000040u32,
            VkImageUsageFlagBits::VK_IMAGE_USAGE_INPUT_ATTACHMENT_BIT => 0x00000080u32,
        }
    }

    fn bits(&self) -> (bits: VkFlags) {
        match self {
            VkImageUsageFlagBits::VK_IMAGE_USAGE_TRANSFER_SRC_BIT => 0x00000001,
            VkImageUsageFlagBits::VK_IMAGE_USAGE_TRANSFER_DST_BIT => 0x00000002,
            VkImageUsageFlagBits::VK_IMAGE_USAGE_SAMPLED_BIT => 0x00000004,
            VkImageUsageFlagBits::VK_IMAGE_USAGE_STORAGE_BIT => 0x00000008,
            VkImageUsageFlagBits::VK_IMAGE_USAGE_COLOR_ATTACHMENT_BIT => 0x00000010,
            VkImageUsageFlagBits::VK_IMAGE_USAGE_DEPTH_STENCIL_ATTACHMENT_BIT => 0x00000020,
            VkImageUsageFlagBits::VK_IMAGE_USAGE_TRANSIENT_ATTACHMENT_BIT => 0x00000040,
            VkImageUsageFlagBits::VK_IMAGE_USAGE_INPUT_ATTACHMENT_BIT => 0x00000080,
        }
    }
}

pub type VkImageUsageFlags = Flags<VkImageUsageFlagBits>;

#[derive(Clone, Copy, Debug, PartialEq, Eq, Hash)]
pub enum VkImageCreateFlagBits {
    VK_IMAGE_CREATE_SPARSE_BINDING_BIT,
    VK_IMAGE_CREATE_SPARSE_RESIDENCY_BIT,
    VK_IMAGE_CREATE_SPARSE_ALIASED_BIT,
    VK_IMAGE_CREATE_MUTABLE_FORMAT_BIT,
    VK_IMAGE_CREATE_CUBE_COMPATIBLE_BIT,
    VK_IMAGE_CREATE_BIND_SFR_BIT_KHX,
    VK_IMAGE_CREATE_2D_ARRAY_COMPATIBLE_BIT_KHR,
}

impl FlagBits for VkImageCreateFlagBits {
    open spec fn spec_bits(&self) -> VkFlags {
        match self {
            VkImageCreateFlagBits::VK_IMAGE_CREATE_SPARSE_BINDING_BIT => 0x00000001u32,
            VkImageCreateFlagBits::VK_IMAGE_CREATE_SPARSE_RESIDENCY_BIT => 0x00000002u32,
            VkImageCreateFlagBits::VK_IMAGE_CREATE_SPARSE_ALIASED_BIT => 0x00000004u32,
            VkImageCreateFlagBits::VK_IMAGE_CREATE_MUTABLE_FORMAT_BIT => 0x00000008u32,
            VkImageCreateFlagBits::VK_IMAGE_CREATE_CUBE_COMPATIBLE_BIT => 0x00000010u32,
            VkImageCreateFlagBits::VK_IMAGE_CREATE_BIND_SFR_BIT_KHX => 0x00000040u32,
            VkImageCreateFlagBits::VK_IMAGE_CREATE_2D_ARRAY_COMPATIBLE_BIT_KHR => 0x00000020u32,
        }
    }

    fn bits(&self) -> (bits: VkFlags) {
        match self {
            VkImageCreateFlagBits::VK_IMAGE_CREATE_SPARSE_BINDING_BIT => 0x00000001,
            VkImageCreateFlagBits::VK_IMAGE_CREATE_SPARSE_RESIDENCY_BIT => 0x00000002,
            VkImageCreateFlagBits::VK_IMAGE_CREATE_SPARSE_ALIASED_BIT => 0x00000004,
            VkImageCreateFlagBits::VK_IMAGE_CREATE_MUTABLE_FORMAT_BIT => 0x00000008,
            VkImageCreateFlagBits::VK_IMAGE_CREATE_CUBE_COMPATIBLE_BIT => 0x00000010,
            VkImageCreateFlagBits::VK_IMAGE_CREATE_BIND_SFR_BIT_KHX => 0x00000040,
            VkImageCreateFlagBits::VK_IMAGE_CREATE_2D_ARRAY_COMPATIBLE_BIT_KHR => 0x00000020,
        }
    }
}

pub type VkImageCreateFlags = Flags<VkImageCreateFlagBits>;

#[derive(Clone, Copy, Debug, PartialEq, Eq, Hash)]
pub enum VkSampleCountFlagBits {
    VK_SAMPLE_COUNT_1_BIT,
    VK_SAMPLE_COUNT_2_BIT,
    VK_SAMPLE_COUNT_4_BIT,
    VK_SAMPLE_COUNT_8_BIT,
    VK_SAMPLE_COUNT_16_BIT,
    VK_SAMPLE_COUNT_32_BIT,
    VK_SAMPLE_COUNT_64_BIT,
}

impl FlagBits for VkSampleCountFlagBits {
    open spec fn spec_bits(&self) -> VkFlags {
        match self {
            VkSampleCountFlagBits::VK_SAMPLE_COUNT_1_BIT => 0x00000001u32,
            VkSampleCountFlagBits::VK_SAMPLE_COUNT_2_BIT => 0x00000002u32,
            VkSampleCountFlagBits::VK_SAMPLE_COUNT_4_BIT => 0x00000004u32,
            VkSampleCountFlagBits::VK_SAMPLE_COUNT_8_BIT => 0x00000008u32,
            VkSampleCountFlagBits::VK_SAMPLE_COUNT_16_BIT => 0x00000010u32,
            VkSampleCountFlagBits::VK_SAMPLE_COUNT_32_BIT => 0x00000020u32,
            VkSampleCountFlagBits::VK_SAMPLE_COUNT_64_BIT => 0x00000040u32,
        }
    }

    fn bits(&self) -> (bits: VkFlags) {
        match self {
            VkSampleCountFlagBits::VK_SAMPLE_COUNT_1_BIT => 0x00000001,
            VkSampleCountFlagBits::VK_SAMPLE_COUNT_2_BIT => 0x00000002,
            VkSampleCountFlagBits::VK_SAMPLE_COUNT_4_BIT => 0x00000004,
            VkSampleCountFlagBits::VK_SAMPLE_COUNT_8_BIT => 0x00000008,
            VkSampleCountFlagBits::VK_SAMPLE_COUNT_16_BIT => 0x00000010,
            VkSampleCountFlagBits::VK_SAMPLE_COUNT_32_BIT => 0x00000020,
            VkSampleCountFlagBits::VK_SAMPLE_COUNT_64_BIT => 0x00000040,
        }
    }
}

pub type VkSampleCountFlags = Flags<VkSampleCountFlagBits>;

#[derive(Clone, Copy, Debug, PartialEq, Eq, Hash)]
pub enum VkQueueFlagBits {
    VK_QUEUE_GRAPHICS_BIT,
    VK_QUEUE_COMPUTE_BIT,
    VK_QUEUE_TRANSFER_BIT,
    VK_QUEUE_SPARSE_BINDING_BIT,
}

impl FlagBits for VkQueueFlagBits {
    open spec fn spec_bits(&self) -> VkFlags {
        match self {
            VkQueueFlagBits::VK_QUEUE_GRAPHICS_BIT => 0x00000001u32,
            VkQueueFlagBits::VK_QUEUE_COMPUTE_BIT => 0x00000002u32,
            VkQueueFlagBits::VK_QUEUE_TRANSFER_BIT => 0x00000004u32,
            VkQueueFlagBits::VK_QUEUE_SPARSE_BINDING_BIT => 0x00000008u32,
        }
    }

    fn bits(&self) -> (bits: VkFlags) {
        match self {
            VkQueueFlagBits::VK_QUEUE_GRAPHICS_BIT => 0x00000001,
            VkQueueFlagBits::VK_QUEUE_COMPUTE_BIT => 0x00000002,
            VkQueueFlagBits::VK_QUEUE_TRANSFER_BIT => 0x00000004,
            VkQueueFlagBits::VK_QUEUE_SPARSE_BINDING_BIT => 0x00000008,
        }
    }
}

pub type VkQueueFlags = Flags<VkQueueFlagBits>;

#[derive(Clone, Copy, Debug, PartialEq, Eq, Hash)]
pub enum VkMemoryPropertyFlagBits {
    VK_MEMORY_PROPERTY_DEVICE_LOCAL_BIT,
    VK_MEMORY_PROPERTY_HOST_VISIBLE_BIT,
    VK_MEMORY_PROPERTY_HOST_COHERENT_BIT,
    VK_MEMORY_PROPERTY_HOST_CACHED_BIT,
    VK_MEMORY_PROPERTY_LAZILY_ALLOCATED_BIT,
}

impl FlagBits for VkMemoryPropertyFlagBits {
    open spec fn spec_bits(&self) -> VkFlags {
        match self {
            VkMemoryPropertyFlagBits::VK_MEMORY_PROPERTY_DEVICE_LOCAL_BIT => 0x00000001u32,
            VkMemoryPropertyFlagBits::VK_MEMORY_PROPERTY_HOST_VISIBLE_BIT => 0x00000002u32,
            VkMemoryPropertyFlagBits::VK_MEMORY_PROPERTY_HOST_COHERENT_BIT => 0x00000004u32,
            VkMemoryPropertyFlagBits::VK_MEMORY_PROPERTY_HOST_CACHED_BIT => 0x00000008u32,
            VkMemoryPropertyFlagBits::VK_MEMORY_PROPERTY_LAZILY_ALLOCATED_BIT => 0x00000010u32,
        }
    }

    fn bits(&self) -> (bits: VkFlags) {
        match self {
            VkMemoryPropertyFlagBits::VK_MEMORY_PROPERTY_DEVICE_LOCAL_BIT => 0x00000001,
            VkMemoryPropertyFlagBits::VK_MEMORY_PROPERTY_HOST_VISIBLE_BIT => 0x00000002,
            VkMemoryPropertyFlagBits::VK_MEMORY_PROPERTY_HOST_COHERENT_BIT => 0x00000004,
            VkMemoryPropertyFlagBits::VK_MEMORY_PROPERTY_HOST_CACHED_BIT => 0x00000008,
            VkMemoryPropertyFlagBits::VK_MEMORY_PROPERTY_LAZILY_ALLOCATED_BIT => 0x00000010,
        }
    }
}

pub type VkMemoryPropertyFlags = Flags<VkMemoryPropertyFlagBits>;

#[derive(Clone, Copy, Debug, PartialEq, Eq, Hash)]
pub enum VkMemoryHeapFlagBits {
    VK_MEMORY_HEAP_DEVICE_LOCAL_BIT,
    VK_MEMORY_HEAP_MULTI_INSTANCE_BIT_KHX,
}

impl FlagBits for VkMemoryHeapFlagBits {
    open spec fn spec_bits(&self) -> VkFlags {
        match self {
            VkMemoryHeapFlagBits::VK_MEMORY_HEAP_DEVICE_LOCAL_BIT => 0x00000001u32,
            VkMemoryHeapFlagBits::VK_MEMORY_HEAP_MULTI_INSTANCE_BIT_KHX => 0x00000002u32,
        }
    }

    fn bits(&self) -> (bits: VkFlags) {
        match self {
            VkMemoryHeapFlagBits::VK_MEMORY_HEAP_DEVICE_LOCAL_BIT => 0x00000001,
            VkMemoryHeapFlagBits::VK_MEMORY_HEAP_MULTI_INSTANCE_BIT_KHX => 0x00000002,
        }
    }
}

pub type VkMemoryHeapFlags = Flags<VkMemoryHeapFlagBits>;

/// The kind of `VkDeviceCreateFlags`, which declares no flag yet.
#[derive(Clone, Copy, Debug, PartialEq, Eq, Hash)]
pub struct VkDeviceCreateFlagBits;

pub type VkDeviceCreateFlags = Flags<VkDeviceCreateFlagBits>;

/// The kind of `VkDeviceQueueCreateFlags`, which declares no flag yet.
#[derive(Clone, Copy, Debug, PartialEq, Eq, Hash)]
pub struct VkDeviceQueueCreateFlagBits;

pub type VkDeviceQueueCreateFlags = Flags<VkDeviceQueueCreateFlagBits>;

#[derive(Clone, Copy, Debug, PartialEq, Eq, Hash)]
pub enum VkPipelineStageFlagBits {
    VK_PIPELINE_STAGE_TOP_OF_PIPE_BIT,
    VK_PIPELINE_STAGE_DRAW_INDIRECT_BIT,
    VK_PIPELINE_STAGE_VERTEX_INPUT_BIT,
    VK_PIPELINE_STAGE_VERTEX_SHADER_BIT,
    VK_PIPELINE_STAGE_TESSELLATION_CONTROL_SHADER_BIT,
    VK_PIPELINE_STAGE_TESSELLATION_EVALUATION_SHADER_BIT,
    VK_PIPELINE_STAGE_GEOMETRY_SHADER_BIT,
    VK_PIPELINE_STAGE_FRAGMENT_SHADER_BIT,
    VK_PIPELINE_STAGE_EARLY_FRAGMENT_TESTS_BIT,
    VK_PIPELINE_STAGE_LATE_FRAGMENT_TESTS_BIT,
    VK_PIPELINE_STAGE_COLOR_ATTACHMENT_OUTPUT_BIT,
    VK_PIPELINE_STAGE_COMPUTE_SHADER_BIT,
    VK_PIPELINE_STAGE_TRANSFER_BIT,
    VK_PIPELINE_STAGE_BOTTOM_OF_PIPE_BIT,
    VK_PIPELINE_STAGE_HOST_BIT,
    VK_PIPELINE_STAGE_ALL_GRAPHICS_BIT,
    VK_PIPELINE_STAGE_ALL_COMMANDS_BIT,
    VK_PIPELINE_STAGE_COMMAND_PROCESS_BIT_NVX,
}

impl FlagBits for VkPipelineStageFlagBits {
    open spec fn spec_bits(&self) -> VkFlags {
        match self {
            VkPipelineStageFlagBits::VK_PIPELINE_STAGE_TOP_OF_PIPE_BIT => 0x00000001u32,
            VkPipelineStageFlagBits::VK_PIPELINE_STAGE_DRAW_INDIRECT_BIT => 0x00000002u32,
            VkPipelineStageFlagBits::VK_PIPELINE_STAGE_VERTEX_INPUT_BIT => 0x00000004u32,
            VkPipelineStageFlagBits::VK_PIPELINE_STAGE_VERTEX_SHADER_BIT => 0x00000008u32,
            VkPipelineStageFlagBits::VK_PIPELINE_STAGE_TESSELLATION_CONTROL_SHADER_BIT =>
                0x00000010u32,
            VkPipelineStageFlagBits::VK_PIPELINE_STAGE_TESSELLATION_EVALUATION_SHADER_BIT =>
                0x00000020u32,
            VkPipelineStageFlagBits::VK_PIPELINE_STAGE_GEOMETRY_SHADER_BIT => 0x00000040u32,
            VkPipelineStageFlagBits::VK_PIPELINE_STAGE_FRAGMENT_SHADER_BIT => 0x00000080u32,
            VkPipelineStageFlagBits::VK_PIPELINE_STAGE_EARLY_FRAGMENT_TESTS_BIT => 0x00000100u32,
            VkPipelineStageFlagBits::VK_PIPELINE_STAGE_LATE_FRAGMENT_TESTS_BIT => 0x00000200u32,
            VkPipelineStageFlagBits::VK_PIPELINE_STAGE_COLOR_ATTACHMENT_OUTPUT_BIT => 0x00000400u32,
            VkPipelineStageFlagBits::VK_PIPELINE_STAGE_COMPUTE_SHADER_BIT => 0x00000800u32,
            VkPipelineStageFlagBits::VK_PIPELINE_STAGE_TRANSFER_BIT => 0x00001000u32,
            VkPipelineStageFlagBits::VK_PIPELINE_STAGE_BOTTOM_OF_PIPE_BIT => 0x00002000u32,
            VkPipelineStageFlagBits::VK_PIPELINE_STAGE_HOST_BIT => 0x00004000u32,
            VkPipelineStageFlagBits::VK_PIPELINE_STAGE_ALL_GRAPHICS_BIT => 0x00008000u32,
            VkPipelineStageFlagBits::VK_PIPELINE_STAGE_ALL_COMMANDS_BIT => 0x00010000u32,
            VkPipelineStageFlagBits::VK_PIPELINE_STAGE_COMMAND_PROCESS_BIT_NVX => 0x00020000u32,
        }
    }

    fn bits(&self) -> (bits: VkFlags) {
        match self {
            VkPipelineStageFlagBits::VK_PIPELINE_STAGE_TOP_OF_PIPE_BIT => 0x00000001,
            VkPipelineStageFlagBits::VK_PIPELINE_STAGE_DRAW_INDIRECT_BIT => 0x00000002,
            VkPipelineStageFlagBits::VK_PIPELINE_STAGE_VERTEX_INPUT_BIT => 0x00000004,
            VkPipelineStageFlagBits::VK_PIPELINE_STAGE_VERTEX_SHADER_BIT => 0x00000008,
            VkPipelineStageFlagBits::VK_PIPELINE_STAGE_TESSELLATION_CONTROL_SHADER_BIT =>
                0x00000010,
            VkPipelineStageFlagBits::VK_PIPELINE_STAGE_TESSELLATION_EVALUATION_SHADER_BIT =>
                0x00000020,
            VkPipelineStageFlagBits::VK_PIPELINE_STAGE_GEOMETRY_SHADER_BIT => 0x00000040,
            VkPipelineStageFlagBits::VK_PIPELINE_STAGE_FRAGMENT_SHADER_BIT => 0x00000080,
            VkPipelineStageFlagBits::VK_PIPELINE_STAGE_EARLY_FRAGMENT_TESTS_BIT => 0x00000100,
            VkPipelineStageFlagBits::VK_PIPELINE_STAGE_LATE_FRAGMENT_TESTS_BIT => 0x00000200,
            VkPipelineStageFlagBits::VK_PIPELINE_STAGE_COLOR_ATTACHMENT_OUTPUT_BIT => 0x00000400,
            VkPipelineStageFlagBits::VK_PIPELINE_STAGE_COMPUTE_SHADER_BIT => 0x00000800,
            VkPipelineStageFlagBits::VK_PIPELINE_STAGE_TRANSFER_BIT => 0x00001000,
            VkPipelineStageFlagBits::VK_PIPELINE_STAGE_BOTTOM_OF_PIPE_BIT => 0x00002000,
            VkPipelineStageFlagBits::VK_PIPELINE_STAGE_HOST_BIT => 0x00004000,
            VkPipelineStageFlagBits::VK_PIPELINE_STAGE_ALL_GRAPHICS_BIT => 0x00008000,
            VkPipelineStageFlagBits::VK_PIPELINE_STAGE_ALL_COMMANDS_BIT => 0x00010000,
            VkPipelineStageFlagBits::VK_PIPELINE_STAGE_COMMAND_PROCESS_BIT_NVX => 0x00020000,
        }
    }
}

pub type VkPipelineStageFlags = Flags<VkPipelineStageFlagBits>;

/// The kind of `VkMemoryMapFlags`, which declares no flag yet.
#[derive(Clone, Copy, Debug, PartialEq, Eq, Hash)]
pub struct VkMemoryMapFlagBits;

pub type VkMemoryMapFlags = Flags<VkMemoryMapFlagBits>;

#[derive(Clone, Copy, Debug, PartialEq, Eq, Hash)]
pub enum VkImageAspectFlagBits {
    VK_IMAGE_ASPECT_COLOR_BIT,
    VK_IMAGE_ASPECT_DEPTH_BIT,
    VK_IMAGE_ASPECT_STENCIL_BIT,
    VK_IMAGE_ASPECT_METADATA_BIT,
}

impl FlagBits for VkImageAspectFlagBits {
    open spec fn spec_bits(&self) -> VkFlags {
        match self {
            VkImageAspectFlagBits::VK_IMAGE_ASPECT_COLOR_BIT => 0x00000001u32,
            VkImageAspectFlagBits::VK_IMAGE_ASPECT_DEPTH_BIT => 0x00000002u32,
            VkImageAspectFlagBits::VK_IMAGE_ASPECT_STENCIL_BIT => 0x00000004u32,
            VkImageAspectFlagBits::VK_IMAGE_ASPECT_METADATA_BIT => 0x00000008u32,
        }
    }

    fn bits(&self) -> (bits: VkFlags) {
        match self {
            VkImageAspectFlagBits::VK_IMAGE_ASPECT_COLOR_BIT => 0x00000001,
            VkImageAspectFlagBits::VK_IMAGE_ASPECT_DEPTH_BIT => 0x00000002,
            VkImageAspectFlagBits::VK_IMAGE_ASPECT_STENCIL_BIT => 0x00000004,
            VkImageAspectFlagBits::VK_IMAGE_ASPECT_METADATA_BIT => 0x00000008,
        }
    }
}

pub type VkImageAspectFlags = Flags<VkImageAspectFlagBits>;

#[derive(Clone, Copy, Debug, PartialEq, Eq, Hash)]
pub enum VkSparseImageFormatFlagBits {
    VK_SPARSE_IMAGE_FORMAT_SINGLE_MIPTAIL_BIT,
    VK_SPARSE_IMAGE_FORMAT_ALIGNED_MIP_SIZE_BIT,
    VK_SPARSE_IMAGE_FORMAT_NONSTANDARD_BLOCK_SIZE_BIT,
}

impl FlagBits for VkSparseImageFormatFlagBits {
    open spec fn spec_bits(&self) -> VkFlags {
        match self {
            VkSparseImageFormatFlagBits::VK_SPARSE_IMAGE_FORMAT_SINGLE_MIPTAIL_BIT => 0x00000001u32,
            VkSparseImageFormatFlagBits::VK_SPARSE_IMAGE_FORMAT_ALIGNED_MIP_SIZE_BIT =>
                0x00000002u32,
            VkSparseImageFormatFlagBits::VK_SPARSE_IMAGE_FORMAT_NONSTANDARD_BLOCK_SIZE_BIT =>
                0x00000004u32,
        }
    }

    fn bits(&self) -> (bits: VkFlags) {
        match self {
            VkSparseImageFormatFlagBits::VK_SPARSE_IMAGE_FORMAT_SINGLE_MIPTAIL_BIT => 0x00000001,
            VkSparseImageFormatFlagBits::VK_SPARSE_IMAGE_FORMAT_ALIGNED_MIP_SIZE_BIT => 0x00000002,
            VkSparseImageFormatFlagBits::VK_SPARSE_IMAGE_FORMAT_NONSTANDARD_BLOCK_SIZE_BIT =>
                0x00000004,
        }
    }
}

pub type VkSparseImageFormatFlags = Flags<VkSparseImageFormatFlagBits>;

#[derive(Clone, Copy, Debug, PartialEq, Eq, Hash)]
pub enum VkSparseMemoryBindFlagBits {
    VK_SPARSE_MEMORY_BIND_METADATA_BIT,
}

impl FlagBits for VkSparseMemoryBindFlagBits {
    open spec fn spec_bits(&self) -> VkFlags {
        match self {
            VkSparseMemoryBindFlagBits::VK_SPARSE_MEMORY_BIND_METADATA_BIT => 0x00000001u32,
        }
    }

    fn bits(&self) -> (bits: VkFlags) {
        match self {
            VkSparseMemoryBindFlagBits::VK_SPARSE_MEMORY_BIND_METADATA_BIT => 0x00000001,
        }
    }
}

pub type VkSparseMemoryBindFlags = Flags<VkSparseMemoryBindFlagBits>;

#[derive(Clone, Copy, Debug, PartialEq, Eq, Hash)]
pub enum VkFenceCreateFlagBits {
    VK_FENCE_CREATE_SIGNALED_BIT,
}

impl FlagBits for VkFenceCreateFlagBits {
    open spec fn spec_bits(&self) -> VkFlags {
        match self {
            VkFenceCreateFlagBits::VK_FENCE_CREATE_SIGNALED_BIT => 0x00000001u32,
        }
    }

    fn bits(&self) -> (bits: VkFlags) {
        match self {
            VkFenceCreateFlagBits::VK_FENCE_CREATE_SIGNALED_BIT => 0x00000001,
        }
    }
}

pub type VkFenceCreateFlags = Flags<VkFenceCreateFlagBits>;

/// The kind of `VkSemaphoreCreateFlags`, which declares no flag yet.
#[derive(Clone, Copy, Debug, PartialEq, Eq, Hash)]
pub struct VkSemaphoreCreateFlagBits;

pub type VkSemaphoreCreateFlags = Flags<VkSemaphoreCreateFlagBits>;

/// The kind of `VkEventCreateFlags`, which declares no flag yet.
#[derive(Clone, Copy, Debug, PartialEq, Eq, Hash)]
pub struct VkEventCreateFlagBits;

pub type VkEventCreateFlags = Flags<VkEventCreateFlagBits>;

/// The kind of `VkQueryPoolCreateFlags`, which declares no flag yet.
#[derive(Clone, Copy, Debug, PartialEq, Eq, Hash)]
pub struct VkQueryPoolCreateFlagBits;

pub type VkQueryPoolCreateFlags = Flags<VkQueryPoolCreateFlagBits>;

#[derive(Clone, Copy, Debug, PartialEq, Eq, Hash)]
pub enum VkQueryPipelineStatisticFlagBits {
    VK_QUERY_PIPELINE_STATISTIC_INPUT_ASSEMBLY_VERTICES_BIT,
    VK_QUERY_PIPELINE_STATISTIC_INPUT_ASSEMBLY_PRIMITIVES_BIT,
    VK_QUERY_PIPELINE_STATISTIC_VERTEX_SHADER_INVOCATIONS_BIT,
    VK_QUERY_PIPELINE_STATISTIC_GEOMETRY_SHADER_INVOCATIONS_BIT,
    VK_QUERY_PIPELINE_STATISTIC_GEOMETRY_SHADER_PRIMITIVES_BIT,
    VK_QUERY_PIPELINE_STATISTIC_CLIPPING_INVOCATIONS_BIT,
    VK_QUERY_PIPELINE_STATISTIC_CLIPPING_PRIMITIVES_BIT,
    VK_QUERY_PIPELINE_STATISTIC_FRAGMENT_SHADER_INVOCATIONS_BIT,
    VK_QUERY_PIPELINE_STATISTIC_TESSELLATION_CONTROL_SHADER_PATCHES_BIT,
    VK_QUERY_PIPELINE_STATISTIC_TESSELLATION_EVALUATION_SHADER_INVOCATIONS_BIT,
    VK_QUERY_PIPELINE_STATISTIC_COMPUTE_SHADER_INVOCATIONS_BIT,
}

impl FlagBits for VkQueryPipelineStatisticFlagBits {
    open spec fn spec_bits(&self) -> VkFlags {
        match self {
            VkQueryPipelineStatisticFlagBits::VK_QUERY_PIPELINE_STATISTIC_INPUT_ASSEMBLY_VERTICES_BIT =>
                0x00000001u32,
            VkQueryPipelineStatisticFlagBits::VK_QUERY_PIPELINE_STATISTIC_INPUT_ASSEMBLY_PRIMITIVES_BIT =>
                0x00000002u32,
            VkQueryPipelineStatisticFlagBits::VK_QUERY_PIPELINE_STATISTIC_VERTEX_SHADER_INVOCATIONS_BIT =>
                0x00000004u32,
            VkQueryPipelineStatisticFlagBits::VK_QUERY_PIPELINE_STATISTIC_GEOMETRY_SHADER_INVOCATIONS_BIT =>
                0x00000008u32,
            VkQueryPipelineStatisticFlagBits::VK_QUERY_PIPELINE_STATISTIC_GEOMETRY_SHADER_PRIMITIVES_BIT =>
                0x00000010u32,
            VkQueryPipelineStatisticFlagBits::VK_QUERY_PIPELINE_STATISTIC_CLIPPING_INVOCATIONS_BIT =>
                0x00000020u32,
            VkQueryPipelineStatisticFlagBits::VK_QUERY_PIPELINE_STATISTIC_CLIPPING_PRIMITIVES_BIT =>
                0x00000040u32,
            VkQueryPipelineStatisticFlagBits::VK_QUERY_PIPELINE_STATISTIC_FRAGMENT_SHADER_INVOCATIONS_BIT =>
                0x00000080u32,
            VkQueryPipelineStatisticFlagBits::VK_QUERY_PIPELINE_STATISTIC_TESSELLATION_CONTROL_SHADER_PATCHES_BIT =>
                0x00000100u32,
            VkQueryPipelineStatisticFlagBits::VK_QUERY_PIPELINE_STATISTIC_TESSELLATION_EVALUATION_SHADER_INVOCATIONS_BIT =>
                0x00000200u32,
            VkQueryPipelineStatisticFlagBits::VK_QUERY_PIPELINE_STATISTIC_COMPUTE_SHADER_INVOCATIONS_BIT =>
                0x00000400u32,
        }
    }

    fn bits(&self) -> (bits: VkFlags) {
        match self {
            VkQueryPipelineStatisticFlagBits::VK_QUERY_PIPELINE_STATISTIC_INPUT_ASSEMBLY_VERTICES_BIT =>
                0x00000001,
            VkQueryPipelineStatisticFlagBits::VK_QUERY_PIPELINE_STATISTIC_INPUT_ASSEMBLY_PRIMITIVES_BIT =>
                0x00000002,
            VkQueryPipelineStatisticFlagBits::VK_QUERY_PIPELINE_STATISTIC_VERTEX_SHADER_INVOCATIONS_BIT =>
                0x00000004,
            VkQueryPipelineStatisticFlagBits::VK_QUERY_PIPELINE_STATISTIC_GEOMETRY_SHADER_INVOCATIONS_BIT =>
                0x00000008,
            VkQueryPipelineStatisticFlagBits::VK_QUERY_PIPELINE_STATISTIC_GEOMETRY_SHADER_PRIMITIVES_BIT =>
                0x00000010,
            VkQueryPipelineStatisticFlagBits::VK_QUERY_PIPELINE_STATISTIC_CLIPPING_INVOCATIONS_BIT =>
                0x00000020,
            VkQueryPipelineStatisticFlagBits::VK_QUERY_PIPELINE_STATISTIC_CLIPPING_PRIMITIVES_BIT =>
                0x00000040,
            VkQueryPipelineStatisticFlagBits::VK_QUERY_PIPELINE_STATISTIC_FRAGMENT_SHADER_INVOCATIONS_BIT =>
                0x00000080,
            VkQueryPipelineStatisticFlagBits::VK_QUERY_PIPELINE_STATISTIC_TESSELLATION_CONTROL_SHADER_PATCHES_BIT =>
                0x00000100,
            VkQueryPipelineStatisticFlagBits::VK_QUERY_PIPELINE_STATISTIC_TESSELLATION_EVALUATION_SHADER_INVOCATIONS_BIT =>
                0x00000200,
            VkQueryPipelineStatisticFlagBits::VK_QUERY_PIPELINE_STATISTIC_COMPUTE_SHADER_INVOCATIONS_BIT =>
                0x00000400,
        }
    }
}

pub type VkQueryPipelineStatisticFlags = Flags<VkQueryPipelineStatisticFlagBits>;

#[derive(Clone, Copy, Debug, PartialEq, Eq, Hash)]
pub enum VkQueryResultFlagBits {
    VK_QUERY_RESULT_64_BIT,
    VK_QUERY_RESULT_WAIT_BIT,
    VK_QUERY_RESULT_WITH_AVAILABILITY_BIT,
    VK_QUERY_RESULT_PARTIAL_BIT,
}

impl FlagBits for VkQueryResultFlagBits {
    open spec fn spec_bits(&self) -> VkFlags {
        match self {
            VkQueryResultFlagBits::VK_QUERY_RESULT_64_BIT => 0x00000001u32,
            VkQueryResultFlagBits::VK_QUERY_RESULT_WAIT_BIT => 0x00000002u32,
            VkQueryResultFlagBits::VK_QUERY_RESULT_WITH_AVAILABILITY_BIT => 0x00000004u32,
            VkQueryResultFlagBits::VK_QUERY_RESULT_PARTIAL_BIT => 0x00000008u32,
        }
    }

    fn bits(&self) -> (bits: VkFlags) {
        match self {
            VkQueryResultFlagBits::VK_QUERY_RESULT_64_BIT => 0x00000001,
            VkQueryResultFlagBits::VK_QUERY_RESULT_WAIT_BIT => 0x00000002,
            VkQueryResultFlagBits::VK_QUERY_RESULT_WITH_AVAILABILITY_BIT => 0x00000004,
            VkQueryResultFlagBits::VK_QUERY_RESULT_PARTIAL_BIT => 0x00000008,
        }
    }
}

pub type VkQueryResultFlags = Flags<VkQueryResultFlagBits>;

#[derive(Clone, Copy, Debug, PartialEq, Eq, Hash)]
pub enum VkBufferCreateFlagBits {
    VK_BUFFER_CREATE_SPARSE_BINDING_BIT,
    VK_BUFFER_CREATE_SPARSE_RESIDENCY_BIT,
    VK_BUFFER_CREATE_SPARSE_ALIASED_BIT,
}

impl FlagBits for VkBufferCreateFlagBits {
    open spec fn spec_bits(&self) -> VkFlags {
        match self {
            VkBufferCreateFlagBits::VK_BUFFER_CREATE_SPARSE_BINDING_BIT => 0x00000001u32,
            VkBufferCreateFlagBits::VK_BUFFER_CREATE_SPARSE_RESIDENCY_BIT => 0x00000002u32,
            VkBufferCreateFlagBits::VK_BUFFER_CREATE_SPARSE_ALIASED_BIT => 0x00000004u32,
        }
    }

    fn bits(&self) -> (bits: VkFlags) {
        match self {
            VkBufferCreateFlagBits::VK_BUFFER_CREATE_SPARSE_BINDING_BIT => 0x00000001,
            VkBufferCreateFlagBits::VK_BUFFER_CREATE_SPARSE_RESIDENCY_BIT => 0x00000002,
            VkBufferCreateFlagBits::VK_BUFFER_CREATE_SPARSE_ALIASED_BIT => 0x00000004,
        }
    }
}

pub type VkBufferCreateFlags = Flags<VkBufferCreateFlagBits>;

#[derive(Clone, Copy, Debug, PartialEq, Eq, Hash)]
pub enum VkBufferUsageFlagBits {
    VK_BUFFER_USAGE_TRANSFER_SRC_BIT,
    VK_BUFFER_USAGE_TRANSFER_DST_BIT,
    VK_BUFFER_USAGE_UNIFORM_TEXEL_BUFFER_BIT,
    VK_BUFFER_USAGE_STORAGE_TEXEL_BUFFER_BIT,
    VK_BUFFER_USAGE_UNIFORM_BUFFER_BIT,
    VK_BUFFER_USAGE_STORAGE_BUFFER_BIT,
    VK_BUFFER_USAGE_INDEX_BUFFER_BIT,
    VK_BUFFER_USAGE_VERTEX_BUFFER_BIT,
    VK_BUFFER_USAGE_INDIRECT_BUFFER_BIT,
}

impl FlagBits for VkBufferUsageFlagBits {
    open spec fn spec_bits(&self) -> VkFlags {
        match self {
            VkBufferUsageFlagBits::VK_BUFFER_USAGE_TRANSFER_SRC_BIT => 0x00000001u32,
            VkBufferUsageFlagBits::VK_BUFFER_USAGE_TRANSFER_DST_BIT => 0x00000002u32,
            VkBufferUsageFlagBits::VK_BUFFER_USAGE_UNIFORM_TEXEL_BUFFER_BIT => 0x00000004u32,
            VkBufferUsageFlagBits::VK_BUFFER_USAGE_STORAGE_TEXEL_BUFFER_BIT => 0x00000008u32,
            VkBufferUsageFlagBits::VK_BUFFER_USAGE_UNIFORM_BUFFER_BIT => 0x00000010u32,
            VkBufferUsageFlagBits::VK_BUFFER_USAGE_STORAGE_BUFFER_BIT => 0x00000020u32,
            VkBufferUsageFlagBits::VK_BUFFER_USAGE_INDEX_BUFFER_BIT => 0x00000040u32,
            VkBufferUsageFlagBits::VK_BUFFER_USAGE_VERTEX_BUFFER_BIT => 0x00000080u32,
            VkBufferUsageFlagBits::VK_BUFFER_USAGE_INDIRECT_BUFFER_BIT => 0x00000100u32,
        }
    }

    fn bits(&self) -> (bits: VkFlags) {
        match self {
            VkBufferUsageFlagBits::VK_BUFFER_USAGE_TRANSFER_SRC_BIT => 0x00000001,
            VkBufferUsageFlagBits::VK_BUFFER_USAGE_TRANSFER_DST_BIT => 0x00000002,
            VkBufferUsageFlagBits::VK_BUFFER_USAGE_UNIFORM_TEXEL_BUFFER_BIT => 0x00000004,
            VkBufferUsageFlagBits::VK_BUFFER_USAGE_STORAGE_TEXEL_BUFFER_BIT => 0x00000008,
            VkBufferUsageFlagBits::VK_BUFFER_USAGE_UNIFORM_BUFFER_BIT => 0x00000010,
            VkBufferUsageFlagBits::VK_BUFFER_USAGE_STORAGE_BUFFER_BIT => 0x00000020,
            VkBufferUsageFlagBits::VK_BUFFER_USAGE_INDEX_BUFFER_BIT => 0x00000040,
            VkBufferUsageFlagBits::VK_BUFFER_USAGE_VERTEX_BUFFER_BIT => 0x00000080,
            VkBufferUsageFlagBits::VK_BUFFER_USAGE_INDIRECT_BUFFER_BIT => 0x00000100,
        }
    }
}

pub type VkBufferUsageFlags = Flags<VkBufferUsageFlagBits>;

/// The kind of `VkBufferViewCreateFlags`, which declares no flag yet.
#[derive(Clone, Copy, Debug, PartialEq, Eq, Hash)]
pub struct VkBufferViewCreateFlagBits;

pub type VkBufferViewCreateFlags = Flags<VkBufferViewCreateFlagBits>;

/// The kind of `VkImageViewCreateFlags`, which declares no flag yet.
#[derive(Clone, Copy, Debug, PartialEq, Eq, Hash)]
pub struct VkImageViewCreateFlagBits;

pub type VkImageViewCreateFlags = Flags<VkImageViewCreateFlagBits>;

/// The kind of `VkShaderModuleCreateFlags`, which declares no flag yet.
#[derive(Clone, Copy, Debug, PartialEq, Eq, Hash)]
pub struct VkShaderModuleCreateFlagBits;

pub type VkShaderModuleCreateFlags = Flags<VkShaderModuleCreateFlagBits>;

/// The kind of `VkPipelineCacheCreateFlags`, which declares no flag yet.
#[derive(Clone, Copy, Debug, PartialEq, Eq, Hash)]
pub struct VkPipelineCacheCreateFlagBits;

pub type VkPipelineCacheCreateFlags = Flags<VkPipelineCacheCreateFlagBits>;

#[derive(Clone, Copy, Debug, PartialEq, Eq, Hash)]
pub enum VkPipelineCreateFlagBits {
    VK_PIPELINE_CREATE_DISABLE_OPTIMIZATION_BIT,
    VK_PIPELINE_CREATE_ALLOW_DERIVATIVES_BIT,
    VK_PIPELINE_CREATE_DERIVATIVE_BIT,
    VK_PIPELINE_CREATE_VIEW_INDEX_FROM_DEVICE_INDEX_BIT_KHX,
    VK_PIPELINE_CREATE_DISPATCH_BASE_KHX,
}

impl FlagBits for VkPipelineCreateFlagBits {
    open spec fn spec_bits(&self) -> VkFlags {
        match self {
            VkPipelineCreateFlagBits::VK_PIPELINE_CREATE_DISABLE_OPTIMIZATION_BIT => 0x00000001u32,
            VkPipelineCreateFlagBits::VK_PIPELINE_CREATE_ALLOW_DERIVATIVES_BIT => 0x00000002u32,
            VkPipelineCreateFlagBits::VK_PIPELINE_CREATE_DERIVATIVE_BIT => 0x00000004u32,
            VkPipelineCreateFlagBits::VK_PIPELINE_CREATE_VIEW_INDEX_FROM_DEVICE_INDEX_BIT_KHX =>
                0x00000008u32,
            VkPipelineCreateFlagBits::VK_PIPELINE_CREATE_DISPATCH_BASE_KHX => 0x00000010u32,
        }
    }

    fn bits(&self) -> (bits: VkFlags) {
        match self {
            VkPipelineCreateFlagBits::VK_PIPELINE_CREATE_DISABLE_OPTIMIZATION_BIT => 0x00000001,
            VkPipelineCreateFlagBits::VK_PIPELINE_CREATE_ALLOW_DERIVATIVES_BIT => 0x00000002,
            VkPipelineCreateFlagBits::VK_PIPELINE_CREATE_DERIVATIVE_BIT => 0x00000004,
            VkPipelineCreateFlagBits::VK_PIPELINE_CREATE_VIEW_INDEX_FROM_DEVICE_INDEX_BIT_KHX =>
                0x00000008,
            VkPipelineCreateFlagBits::VK_PIPELINE_CREATE_DISPATCH_BASE_KHX => 0x00000010,
        }
    }
}

pub type VkPipelineCreateFlags = Flags<VkPipelineCreateFlagBits>;

/// The kind of `VkPipelineShaderStageCreateFlags`, which declares no flag yet.
#[derive(Clone, Copy, Debug, PartialEq, Eq, Hash)]
pub struct VkPipelineShaderStageCreateFlagBits;

pub type VkPipelineShaderStageCreateFlags = Flags<VkPipelineShaderStageCreateFlagBits>;

/// The kind of `VkPipelineVertexInputStateCreateFlags`, which declares no flag yet.
#[derive(Clone, Copy, Debug, PartialEq, Eq, Hash)]
pub struct VkPipelineVertexInputStateCreateFlagBits;

pub type VkPipelineVertexInputStateCreateFlags = Flags<VkPipelineVertexInputStateCreateFlagBits>;

/// The kind of `VkPipelineInputAssemblyStateCreateFlags`, which declares no flag yet.
#[derive(Clone, Copy, Debug, PartialEq, Eq, Hash)]
pub struct VkPipelineInputAssemblyStateCreateFlagBits;

pub type VkPipelineInputAssemblyStateCreateFlags = Flags<VkPipelineInputAssemblyStateCreateFlagBits>;

/// The kind of `VkPipelineTessellationStateCreateFlags`, which declares no flag yet.
#[derive(Clone, Copy, Debug, PartialEq, Eq, Hash)]
pub struct VkPipelineTessellationStateCreateFlagBits;

pub type VkPipelineTessellationStateCreateFlags = Flags<VkPipelineTessellationStateCreateFlagBits>;

/// The kind of `VkPipelineViewportStateCreateFlags`, which declares no flag yet.
#[derive(Clone, Copy, Debug, PartialEq, Eq, Hash)]
pub struct VkPipelineViewportStateCreateFlagBits;

pub type VkPipelineViewportStateCreateFlags = Flags<VkPipelineViewportStateCreateFlagBits>;

/// The kind of `VkPipelineRasterizationStateCreateFlags`, which declares no flag yet.
#[derive(Clone, Copy, Debug, PartialEq, Eq, Hash)]
pub struct VkPipelineRasterizationStateCreateFlagBits;

pub type VkPipelineRasterizationStateCreateFlags = Flags<VkPipelineRasterizationStateCreateFlagBits>;

#[derive(Clone, Copy, Debug, PartialEq, Eq, Hash)]
pub enum VkCullModeFlagBits {
    VK_CULL_MODE_NONE,
    VK_CULL_MODE_FRONT_BIT,
    VK_CULL_MODE_BACK_BIT,
    VK_CULL_MODE_FRONT_AND_BACK,
}

impl FlagBits for VkCullModeFlagBits {
    open spec fn spec_bits(&self) -> VkFlags {
        match self {
            VkCullModeFlagBits::VK_CULL_MODE_NONE => 0u32,
            VkCullModeFlagBits::VK_CULL_MODE_FRONT_BIT => 0x00000001u32,
            VkCullModeFlagBits::VK_CULL_MODE_BACK_BIT => 0x00000002u32,
            VkCullModeFlagBits::VK_CULL_MODE_FRONT_AND_BACK => 0x00000003u32,
        }
    }

    fn bits(&self) -> (bits: VkFlags) {
        match self {
            VkCullModeFlagBits::VK_CULL_MODE_NONE => 0,
            VkCullModeFlagBits::VK_CULL_MODE_FRONT_BIT => 0x00000001,
            VkCullModeFlagBits::VK_CULL_MODE_BACK_BIT => 0x00000002,
            VkCullModeFlagBits::VK_CULL_MODE_FRONT_AND_BACK => 0x00000003,
        }
    }
}

pub type VkCullModeFlags = Flags<VkCullModeFlagBits>;

/// The kind of `VkPipelineMultisampleStateCreateFlags`, which declares no flag yet.
#[derive(Clone, Copy, Debug, PartialEq, Eq, Hash)]
pub struct VkPipelineMultisampleStateCreateFlagBits;

pub type VkPipelineMultisampleStateCreateFlags = Flags<VkPipelineMultisampleStateCreateFlagBits>;

/// The kind of `VkPipelineDepthStencilStateCreateFlags`, which declares no flag yet.
#[derive(Clone, Copy, Debug, PartialEq, Eq, Hash)]
pub struct VkPipelineDepthStencilStateCreateFlagBits;

pub type VkPipelineDepthStencilStateCreateFlags = Flags<VkPipelineDepthStencilStateCreateFlagBits>;

/// The kind of `VkPipelineColorBlendStateCreateFlags`, which declares no flag yet.
#[derive(Clone, Copy, Debug, PartialEq, Eq, Hash)]
pub struct VkPipelineColorBlendStateCreateFlagBits;

pub type VkPipelineColorBlendStateCreateFlags = Flags<VkPipelineColorBlendStateCreateFlagBits>;

#[derive(Clone, Copy, Debug, PartialEq, Eq, Hash)]
pub enum VkColorComponentFlagBits {
    VK_COLOR_COMPONENT_R_BIT,
    VK_COLOR_COMPONENT_G_BIT,
    VK_COLOR_COMPONENT_B_BIT,
    VK_COLOR_COMPONENT_A_BIT,
}

impl FlagBits for VkColorComponentFlagBits {
    open spec fn spec_bits(&self) -> VkFlags {
        match self {
            VkColorComponentFlagBits::VK_COLOR_COMPONENT_R_BIT => 0x00000001u32,
            VkColorComponentFlagBits::VK_COLOR_COMPONENT_G_BIT => 0x00000002u32,
            VkColorComponentFlagBits::VK_COLOR_COMPONENT_B_BIT => 0x00000004u32,
            VkColorComponentFlagBits::VK_COLOR_COMPONENT_A_BIT => 0x00000008u32,
        }
    }

    fn bits(&self) -> (bits: VkFlags) {
        match self {
            VkColorComponentFlagBits::VK_COLOR_COMPONENT_R_BIT => 0x00000001,
            VkColorComponentFlagBits::VK_COLOR_COMPONENT_G_BIT => 0x00000002,
            VkColorComponentFlagBits::VK_COLOR_COMPONENT_B_BIT => 0x00000004,
            VkColorComponentFlagBits::VK_COLOR_COMPONENT_A_BIT => 0x00000008,
        }
    }
}

pub type VkColorComponentFlags = Flags<VkColorComponentFlagBits>;

/// The kind of `VkPipelineDynamicStateCreateFlags`, which declares no flag yet.
#[derive(Clone, Copy, Debug, PartialEq, Eq, Hash)]
pub struct VkPipelineDynamicStateCreateFlagBits;

pub type VkPipelineDynamicStateCreateFlags = Flags<VkPipelineDynamicStateCreateFlagBits>;

/// The kind of `VkPipelineLayoutCreateFlags`, which declares no flag yet.
#[derive(Clone, Copy, Debug, PartialEq, Eq, Hash)]
pub struct VkPipelineLayoutCreateFlagBits;

pub type VkPipelineLayoutCreateFlags = Flags<VkPipelineLayoutCreateFlagBits>;

#[derive(Clone, Copy, Debug, PartialEq, Eq, Hash)]
pub enum VkShaderStageFlagBits {
    VK_SHADER_STAGE_VERTEX_BIT,
    VK_SHADER_STAGE_TESSELLATION_CONTROL_BIT,
    VK_SHADER_STAGE_TESSELLATION_EVALUATION_BIT,
    VK_SHADER_STAGE_GEOMETRY_BIT,
    VK_SHADER_STAGE_FRAGMENT_BIT,
    VK_SHADER_STAGE_COMPUTE_BIT,
    VK_SHADER_STAGE_ALL_GRAPHICS,
    VK_SHADER_STAGE_ALL,
}

impl FlagBits for VkShaderStageFlagBits {
    open spec fn spec_bits(&self) -> VkFlags {
        match self {
            VkShaderStageFlagBits::VK_SHADER_STAGE_VERTEX_BIT => 0x00000001u32,
            VkShaderStageFlagBits::VK_SHADER_STAGE_TESSELLATION_CONTROL_BIT => 0x00000002u32,
            VkShaderStageFlagBits::VK_SHADER_STAGE_TESSELLATION_EVALUATION_BIT => 0x00000004u32,
            VkShaderStageFlagBits::VK_SHADER_STAGE_GEOMETRY_BIT => 0x00000008u32,
            VkShaderStageFlagBits::VK_SHADER_STAGE_FRAGMENT_BIT => 0x00000010u32,
            VkShaderStageFlagBits::VK_SHADER_STAGE_COMPUTE_BIT => 0x00000020u32,
            VkShaderStageFlagBits::VK_SHADER_STAGE_ALL_GRAPHICS => 0x0000001Fu32,
            VkShaderStageFlagBits::VK_SHADER_STAGE_ALL => 0x7FFFFFFFu32,
        }
    }

    fn bits(&self) -> (bits: VkFlags) {
        match self {
            VkShaderStageFlagBits::VK_SHADER_STAGE_VERTEX_BIT => 0x00000001,
            VkShaderStageFlagBits::VK_SHADER_STAGE_TESSELLATION_CONTROL_BIT => 0x00000002,
            VkShaderStageFlagBits::VK_SHADER_STAGE_TESSELLATION_EVALUATION_BIT => 0x00000004,
            VkShaderStageFlagBits::VK_SHADER_STAGE_GEOMETRY_BIT => 0x00000008,
            VkShaderStageFlagBits::VK_SHADER_STAGE_FRAGMENT_BIT => 0x00000010,
            VkShaderStageFlagBits::VK_SHADER_STAGE_COMPUTE_BIT => 0x00000020,
            VkShaderStageFlagBits::VK_SHADER_STAGE_ALL_GRAPHICS => 0x0000001F,
            VkShaderStageFlagBits::VK_SHADER_STAGE_ALL => 0x7FFFFFFF,
        }
    }
}

pub type VkShaderStageFlags = Flags<VkShaderStageFlagBits>;

/// The kind of `VkSamplerCreateFlags`, which declares no flag yet.
#[derive(Clone, Copy, Debug, PartialEq, Eq, Hash)]
pub struct VkSamplerCreateFlagBits;

pub type VkSamplerCreateFlags = Flags<VkSamplerCreateFlagBits>;

#[derive(Clone, Copy, Debug, PartialEq, Eq, Hash)]
pub enum VkDescriptorSetLayoutCreateFlagBits {
    VK_DESCRIPTOR_SET_LAYOUT_CREATE_PUSH_DESCRIPTOR_BIT_KHR,
}

impl FlagBits for VkDescriptorSetLayoutCreateFlagBits {
    open spec fn spec_bits(&self) -> VkFlags {
        match self {
            VkDescriptorSetLayoutCreateFlagBits::VK_DESCRIPTOR_SET_LAYOUT_CREATE_PUSH_DESCRIPTOR_BIT_KHR =>
                0x00000001u32,
        }
    }

    fn bits(&self) -> (bits: VkFlags) {
        match self {
            VkDescriptorSetLayoutCreateFlagBits::VK_DESCRIPTOR_SET_LAYOUT_CREATE_PUSH_DESCRIPTOR_BIT_KHR =>
                0x00000001,
        }
    }
}

pub type VkDescriptorSetLayoutCreateFlags = Flags<VkDescriptorSetLayoutCreateFlagBits>;

#[derive(Clone, Copy, Debug, PartialEq, Eq, Hash)]
pub enum VkDescriptorPoolCreateFlagBits {
    VK_DESCRIPTOR_POOL_CREATE_FREE_DESCRIPTOR_SET_BIT,
}

impl FlagBits for VkDescriptorPoolCreateFlagBits {
    open spec fn spec_bits(&self) -> VkFlags {
        match self {
            VkDescriptorPoolCreateFlagBits::VK_DESCRIPTOR_POOL_CREATE_FREE_DESCRIPTOR_SET_BIT =>
                0x00000001u32,
        }
    }

    fn bits(&self) -> (bits: VkFlags) {
        match self {
            VkDescriptorPoolCreateFlagBits::VK_DESCRIPTOR_POOL_CREATE_FREE_DESCRIPTOR_SET_BIT =>
                0x00000001,
        }
    }
}

pub type VkDescriptorPoolCreateFlags = Flags<VkDescriptorPoolCreateFlagBits>;

/// The kind of `VkDescriptorPoolResetFlags`, which declares no flag yet.
#[derive(Clone, Copy, Debug, PartialEq, Eq, Hash)]
pub struct VkDescriptorPoolResetFlagBits;

pub type VkDescriptorPoolResetFlags = Flags<VkDescriptorPoolResetFlagBits>;

/// The kind of `VkFramebufferCreateFlags`, which declares no flag yet.
#[derive(Clone, Copy, Debug, PartialEq, Eq, Hash)]
pub struct VkFramebufferCreateFlagBits;

pub type VkFramebufferCreateFlags = Flags<VkFramebufferCreateFlagBits>;

/// The kind of `VkRenderPassCreateFlags`, which declares no flag yet.
#[derive(Clone, Copy, Debug, PartialEq, Eq, Hash)]
pub struct VkRenderPassCreateFlagBits;

pub type VkRenderPassCreateFlags = Flags<VkRenderPassCreateFlagBits>;

#[derive(Clone, Copy, Debug, PartialEq, Eq, Hash)]
pub enum VkAttachmentDescriptionFlagBits {
    VK_ATTACHMENT_DESCRIPTION_MAY_ALIAS_BIT,
}

impl FlagBits for VkAttachmentDescriptionFlagBits {
    open spec fn spec_bits(&self) -> VkFlags {
        match self {
            VkAttachmentDescriptionFlagBits::VK_ATTACHMENT_DESCRIPTION_MAY_ALIAS_BIT =>
                0x00000001u32,
        }
    }

    fn bits(&self) -> (bits: VkFlags) {
        match self {
            VkAttachmentDescriptionFlagBits::VK_ATTACHMENT_DESCRIPTION_MAY_ALIAS_BIT => 0x00000001,
        }
    }
}

pub type VkAttachmentDescriptionFlags = Flags<VkAttachmentDescriptionFlagBits>;

#[derive(Clone, Copy, Debug, PartialEq, Eq, Hash)]
pub enum VkSubpassDescriptionFlagBits {
    VK_SUBPASS_DESCRIPTION_PER_VIEW_ATTRIBUTES_BIT_NVX,
    VK_SUBPASS_DESCRIPTION_PER_VIEW_POSITION_X_ONLY_BIT_NVX,
}

impl FlagBits for VkSubpassDescriptionFlagBits {
    open spec fn spec_bits(&self) -> VkFlags {
        match self {
            VkSubpassDescriptionFlagBits::VK_SUBPASS_DESCRIPTION_PER_VIEW_ATTRIBUTES_BIT_NVX =>
                0x00000001u32,
            VkSubpassDescriptionFlagBits::VK_SUBPASS_DESCRIPTION_PER_VIEW_POSITION_X_ONLY_BIT_NVX =>
                0x00000002u32,
        }
    }

    fn bits(&self) -> (bits: VkFlags) {
        match self {
            VkSubpassDescriptionFlagBits::VK_SUBPASS_DESCRIPTION_PER_VIEW_ATTRIBUTES_BIT_NVX =>
                0x00000001,
            VkSubpassDescriptionFlagBits::VK_SUBPASS_DESCRIPTION_PER_VIEW_POSITION_X_ONLY_BIT_NVX =>
                0x00000002,
        }
    }
}

pub type VkSubpassDescriptionFlags = Flags<VkSubpassDescriptionFlagBits>;

#[derive(Clone, Copy, Debug, PartialEq, Eq, Hash)]
pub enum VkAccessFlagBits {
    VK_ACCESS_INDIRECT_COMMAND_READ_BIT,
    VK_ACCESS_INDEX_READ_BIT,
    VK_ACCESS_VERTEX_ATTRIBUTE_READ_BIT,
    VK_ACCESS_UNIFORM_READ_BIT,
    VK_ACCESS_INPUT_ATTACHMENT_READ_BIT,
    VK_ACCESS_SHADER_READ_BIT,
    VK_ACCESS_SHADER_WRITE_BIT,
    VK_ACCESS_COLOR_ATTACHMENT_READ_BIT,
    VK_ACCESS_COLOR_ATTACHMENT_WRITE_BIT,
    VK_ACCESS_DEPTH_STENCIL_ATTACHMENT_READ_BIT,
    VK_ACCESS_DEPTH_STENCIL_ATTACHMENT_WRITE_BIT,
    VK_ACCESS_TRANSFER_READ_BIT,
    VK_ACCESS_TRANSFER_WRITE_BIT,
    VK_ACCESS_HOST_READ_BIT,
    VK_ACCESS_HOST_WRITE_BIT,
    VK_ACCESS_MEMORY_READ_BIT,
    VK_ACCESS_MEMORY_WRITE_BIT,
    VK_ACCESS_COMMAND_PROCESS_READ_BIT_NVX,
    VK_ACCESS_COMMAND_PROCESS_WRITE_BIT_NVX,
}

impl FlagBits for VkAccessFlagBits {
    open spec fn spec_bits(&self) -> VkFlags {
        match self {
            VkAccessFlagBits::VK_ACCESS_INDIRECT_COMMAND_READ_BIT => 0x00000001u32,
            VkAccessFlagBits::VK_ACCESS_INDEX_READ_BIT => 0x00000002u32,
            VkAccessFlagBits::VK_ACCESS_VERTEX_ATTRIBUTE_READ_BIT => 0x00000004u32,
            VkAccessFlagBits::VK_ACCESS_UNIFORM_READ_BIT => 0x00000008u32,
            VkAccessFlagBits::VK_ACCESS_INPUT_ATTACHMENT_READ_BIT => 0x00000010u32,
            VkAccessFlagBits::VK_ACCESS_SHADER_READ_BIT => 0x00000020u32,
            VkAccessFlagBits::VK_ACCESS_SHADER_WRITE_BIT => 0x00000040u32,
            VkAccessFlagBits::VK_ACCESS_COLOR_ATTACHMENT_READ_BIT => 0x00000080u32,
            VkAccessFlagBits::VK_ACCESS_COLOR_ATTACHMENT_WRITE_BIT => 0x00000100u32,
            VkAccessFlagBits::VK_ACCESS_DEPTH_STENCIL_ATTACHMENT_READ_BIT => 0x00000200u32,
            VkAccessFlagBits::VK_ACCESS_DEPTH_STENCIL_ATTACHMENT_WRITE_BIT => 0x00000400u32,
            VkAccessFlagBits::VK_ACCESS_TRANSFER_READ_BIT => 0x00000800u32,
            VkAccessFlagBits::VK_ACCESS_TRANSFER_WRITE_BIT => 0x00001000u32,
            VkAccessFlagBits::VK_ACCESS_HOST_READ_BIT => 0x00002000u32,
            VkAccessFlagBits::VK_ACCESS_HOST_WRITE_BIT => 0x00004000u32,
            VkAccessFlagBits::VK_ACCESS_MEMORY_READ_BIT => 0x00008000u32,
            VkAccessFlagBits::VK_ACCESS_MEMORY_WRITE_BIT => 0x00010000u32,
            VkAccessFlagBits::VK_ACCESS_COMMAND_PROCESS_READ_BIT_NVX => 0x00020000u32,
            VkAccessFlagBits::VK_ACCESS_COMMAND_PROCESS_WRITE_BIT_NVX => 0x00040000u32,
        }
    }

    fn bits(&self) -> (bits: VkFlags) {
        match self {
            VkAccessFlagBits::VK_ACCESS_INDIRECT_COMMAND_READ_BIT => 0x00000001,
            VkAccessFlagBits::VK_ACCESS_INDEX_READ_BIT => 0x00000002,
            VkAccessFlagBits::VK_ACCESS_VERTEX_ATTRIBUTE_READ_BIT => 0x00000004,
            VkAccessFlagBits::VK_ACCESS_UNIFORM_READ_BIT => 0x00000008,
            VkAccessFlagBits::VK_ACCESS_INPUT_ATTACHMENT_READ_BIT => 0x00000010,
            VkAccessFlagBits::VK_ACCESS_SHADER_READ_BIT => 0x00000020,
            VkAccessFlagBits::VK_ACCESS_SHADER_WRITE_BIT => 0x00000040,
            VkAccessFlagBits::VK_ACCESS_COLOR_ATTACHMENT_READ_BIT => 0x00000080,
            VkAccessFlagBits::VK_ACCESS_COLOR_ATTACHMENT_WRITE_BIT => 0x00000100,
            VkAccessFlagBits::VK_ACCESS_DEPTH_STENCIL_ATTACHMENT_READ_BIT => 0x00000200,
            VkAccessFlagBits::VK_ACCESS_DEPTH_STENCIL_ATTACHMENT_WRITE_BIT => 0x00000400,
            VkAccessFlagBits::VK_ACCESS_TRANSFER_READ_BIT => 0x00000800,
            VkAccessFlagBits::VK_ACCESS_TRANSFER_WRITE_BIT => 0x00001000,
            VkAccessFlagBits::VK_ACCESS_HOST_READ_BIT => 0x00002000,
            VkAccessFlagBits::VK_ACCESS_HOST_WRITE_BIT => 0x00004000,
            VkAccessFlagBits::VK_ACCESS_MEMORY_READ_BIT => 0x00008000,
            VkAccessFlagBits::VK_ACCESS_MEMORY_WRITE_BIT => 0x00010000,
            VkAccessFlagBits::VK_ACCESS_COMMAND_PROCESS_READ_BIT_NVX => 0x00020000,
            VkAccessFlagBits::VK_ACCESS_COMMAND_PROCESS_WRITE_BIT_NVX => 0x00040000,
        }
    }
}

pub type VkAccessFlags = Flags<VkAccessFlagBits>;

#[derive(Clone, Copy, Debug, PartialEq, Eq, Hash)]
pub enum VkDependencyFlagBits {
    VK_DEPENDENCY_BY_REGION_BIT,
    VK_DEPENDENCY_VIEW_LOCAL_BIT_KHX,
    VK_DEPENDENCY_DEVICE_GROUP_BIT_KHX,
}

impl FlagBits for VkDependencyFlagBits {
    open spec fn spec_bits(&self) -> VkFlags {
        match self {
            VkDependencyFlagBits::VK_DEPENDENCY_BY_REGION_BIT => 0x00000001u32,
            VkDependencyFlagBits::VK_DEPENDENCY_VIEW_LOCAL_BIT_KHX => 0x00000002u32,
            VkDependencyFlagBits::VK_DEPENDENCY_DEVICE_GROUP_BIT_KHX => 0x00000004u32,
        }
    }

    fn bits(&self) -> (bits: VkFlags) {
        match self {
            VkDependencyFlagBits::VK_DEPENDENCY_BY_REGION_BIT => 0x00000001,
            VkDependencyFlagBits::VK_DEPENDENCY_VIEW_LOCAL_BIT_KHX => 0x00000002,
            VkDependencyFlagBits::VK_DEPENDENCY_DEVICE_GROUP_BIT_KHX => 0x00000004,
        }
    }
}

pub type VkDependencyFlags = Flags<VkDependencyFlagBits>;

#[derive(Clone, Copy, Debug, PartialEq, Eq, Hash)]
pub enum VkCommandPoolCreateFlagBits {
    VK_COMMAND_POOL_CREATE_TRANSIENT_BIT,
    VK_COMMAND_POOL_CREATE_RESET_COMMAND_BUFFER_BIT,
}

impl FlagBits for VkCommandPoolCreateFlagBits {
    open spec fn spec_bits(&self) -> VkFlags {
        match self {
            VkCommandPoolCreateFlagBits::VK_COMMAND_POOL_CREATE_TRANSIENT_BIT => 0x00000001u32,
            VkCommandPoolCreateFlagBits::VK_COMMAND_POOL_CREATE_RESET_COMMAND_BUFFER_BIT =>
                0x00000002u32,
        }
    }

    fn bits(&self) -> (bits: VkFlags) {
        match self {
            VkCommandPoolCreateFlagBits::VK_COMMAND_POOL_CREATE_TRANSIENT_BIT => 0x00000001,
            VkCommandPoolCreateFlagBits::VK_COMMAND_POOL_CREATE_RESET_COMMAND_BUFFER_BIT =>
                0x00000002,
        }
    }
}

pub type VkCommandPoolCreateFlags = Flags<VkCommandPoolCreateFlagBits>;

#[derive(Clone, Copy, Debug, PartialEq, Eq, Hash)]
pub enum VkCommandPoolResetFlagBits {
    VK_COMMAND_POOL_RESET_RELEASE_RESOURCES_BIT,
}

impl FlagBits for VkCommandPoolResetFlagBits {
    open spec fn spec_bits(&self) -> VkFlags {
        match self {
            VkCommandPoolResetFlagBits::VK_COMMAND_POOL_RESET_RELEASE_RESOURCES_BIT =>
                0x00000001u32,
        }
    }

    fn bits(&self) -> (bits: VkFlags) {
        match self {
            VkCommandPoolResetFlagBits::VK_COMMAND_POOL_RESET_RELEASE_RESOURCES_BIT => 0x00000001,
        }
    }
}

pub type VkCommandPoolResetFlags = Flags<VkCommandPoolResetFlagBits>;

#[derive(Clone, Copy, Debug, PartialEq, Eq, Hash)]
pub enum VkCommandBufferUsageFlagBits {
    VK_COMMAND_BUFFER_USAGE_ONE_TIME_SUBMIT_BIT,
    VK_COMMAND_BUFFER_USAGE_RENDER_PASS_CONTINUE_BIT,
    VK_COMMAND_BUFFER_USAGE_SIMULTANEOUS_USE_BIT,
}

impl FlagBits for VkCommandBufferUsageFlagBits {
    open spec fn spec_bits(&self) -> VkFlags {
        match self {
            VkCommandBufferUsageFlagBits::VK_COMMAND_BUFFER_USAGE_ONE_TIME_SUBMIT_BIT =>
                0x00000001u32,
            VkCommandBufferUsageFlagBits::VK_COMMAND_BUFFER_USAGE_RENDER_PASS_CONTINUE_BIT =>
                0x00000002u32,
            VkCommandBufferUsageFlagBits::VK_COMMAND_BUFFER_USAGE_SIMULTANEOUS_USE_BIT =>
                0x00000004u32,
        }
    }

    fn bits(&self) -> (bits: VkFlags) {
        match self {
            VkCommandBufferUsageFlagBits::VK_COMMAND_BUFFER_USAGE_ONE_TIME_SUBMIT_BIT => 0x00000001,
            VkCommandBufferUsageFlagBits::VK_COMMAND_BUFFER_USAGE_RENDER_PASS_CONTINUE_BIT =>
                0x00000002,
            VkCommandBufferUsageFlagBits::VK_COMMAND_BUFFER_USAGE_SIMULTANEOUS_USE_BIT =>
                0x00000004,
        }
    }
}

pub type VkCommandBufferUsageFlags = Flags<VkCommandBufferUsageFlagBits>;

#[derive(Clone, Copy, Debug, PartialEq, Eq, Hash)]
pub enum VkQueryControlFlagBits {
    VK_QUERY_CONTROL_PRECISE_BIT,
}

impl FlagBits for VkQueryControlFlagBits {
    open spec fn spec_bits(&self) -> VkFlags {
        match self {
            VkQueryControlFlagBits::VK_QUERY_CONTROL_PRECISE_BIT => 0x00000001u32,
        }
    }

    fn bits(&self) -> (bits: VkFlags) {
        match self {
            VkQueryControlFlagBits::VK_QUERY_CONTROL_PRECISE_BIT => 0x00000001,
        }
    }
}

pub type VkQueryControlFlags = Flags<VkQueryControlFlagBits>;

#[derive(Clone, Copy, Debug, PartialEq, Eq, Hash)]
pub enum VkCommandBufferResetFlagBits {
    VK_COMMAND_BUFFER_RESET_RELEASE_RESOURCES_BIT,
}

impl FlagBits for VkCommandBufferResetFlagBits {
    open spec fn spec_bits(&self) -> VkFlags {
        match self {
            VkCommandBufferResetFlagBits::VK_COMMAND_BUFFER_RESET_RELEASE_RESOURCES_BIT =>
                0x00000001u32,
        }
    }

    fn bits(&self) -> (bits: VkFlags) {
        match self {
            VkCommandBufferResetFlagBits::VK_COMMAND_BUFFER_RESET_RELEASE_RESOURCES_BIT =>
                0x00000001,
        }
    }
}

pub type VkCommandBufferResetFlags = Flags<VkCommandBufferResetFlagBits>;

#[derive(Clone, Copy, Debug, PartialEq, Eq, Hash)]
pub enum VkStencilFaceFlagBits {
    VK_STENCIL_FACE_FRONT_BIT,
    VK_STENCIL_FACE_BACK_BIT,
    VK_STENCIL_FRONT_AND_BACK,
}

impl FlagBits for VkStencilFaceFlagBits {
    open spec fn spec_bits(&self) -> VkFlags {
        match self {
            VkStencilFaceFlagBits::VK_STENCIL_FACE_FRONT_BIT => 0x00000001u32,
            VkStencilFaceFlagBits::VK_STENCIL_FACE_BACK_BIT => 0x00000002u32,
            VkStencilFaceFlagBits::VK_STENCIL_FRONT_AND_BACK => 0x00000003u32,
        }
    }

    fn bits(&self) -> (bits: VkFlags) {
        match self {
            VkStencilFaceFlagBits::VK_STENCIL_FACE_FRONT_BIT => 0x00000001,
            VkStencilFaceFlagBits::VK_STENCIL_FACE_BACK_BIT => 0x00000002,
            VkStencilFaceFlagBits::VK_STENCIL_FRONT_AND_BACK => 0x00000003,
        }
    }
}

pub type VkStencilFaceFlags = Flags<VkStencilFaceFlagBits>;

} // verus!
