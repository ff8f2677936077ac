use vstd::prelude::*;
use crate::flags::{FlagBits, Flags};
use crate::handles::VkFlags;

verus! {

#[derive(Clone, Copy, Debug, PartialEq, Eq, Hash)]
pub enum VkSurfaceTransformFlagBitsKHR {
    VK_SURFACE_TRANSFORM_IDENTITY_BIT_KHR,
    VK_SURFACE_TRANSFORM_ROTATE_90_BIT_KHR,
    VK_SURFACE_TRANSFORM_ROTATE_180_BIT_KHR,
    VK_SURFACE_TRANSFORM_ROTATE_270_BIT_KHR,
    VK_SURFACE_TRANSFORM_HORIZONTAL_MIRROR_BIT_KHR,
    VK_SURFACE_TRANSFORM_HORIZONTAL_MIRROR_ROTATE_90_BIT_KHR,
    VK_SURFACE_TRANSFORM_HORIZONTAL_MIRROR_ROTATE_180_BIT_KHR,
    VK_SURFACE_TRANSFORM_HORIZONTAL_MIRROR_ROTATE_270_BIT_KHR,
    VK_SURFACE_TRANSFORM_INHERIT_BIT_KHR,
}

impl FlagBits for VkSurfaceTransformFlagBitsKHR {
    open spec fn spec_bits(&self) -> VkFlags {
        match self {
            VkSurfaceTransformFlagBitsKHR::VK_SURFACE_TRANSFORM_IDENTITY_BIT_KHR => 0x00000001u32,
            VkSurfaceTransformFlagBitsKHR::VK_SURFACE_TRANSFORM_ROTATE_90_BIT_KHR => 0x00000002u32,
            VkSurfaceTransformFlagBitsKHR::VK_SURFACE_TRANSFORM_ROTATE_180_BIT_KHR => 0x00000004u32,
            VkSurfaceTransformFlagBitsKHR::VK_SURFACE_TRANSFORM_ROTATE_270_BIT_KHR => 0x00000008u32,
            VkSurfaceTransformFlagBitsKHR::VK_SURFACE_TRANSFORM_HORIZONTAL_MIRROR_BIT_KHR =>
                0x00000010u32,
            VkSurfaceTransformFlagBitsKHR::VK_SURFACE_TRANSFORM_HORIZONTAL_MIRROR_ROTATE_90_BIT_KHR =>
                0x00000020u32,
            VkSurfaceTransformFlagBitsKHR::VK_SURFACE_TRANSFORM_HORIZONTAL_MIRROR_ROTATE_180_BIT_KHR =>
                0x00000040u32,
            VkSurfaceTransformFlagBitsKHR::VK_SURFACE_TRANSFORM_HORIZONTAL_MIRROR_ROTATE_270_BIT_KHR =>
                0x00000080u32,
            VkSurfaceTransformFlagBitsKHR::VK_SURFACE_TRANSFORM_INHERIT_BIT_KHR => 0x00000100u32,
        }
    }

    fn bits(&self) -> (bits: VkFlags) {
        match self {
            VkSurfaceTransformFlagBitsKHR::VK_SURFACE_TRANSFORM_IDENTITY_BIT_KHR => 0x00000001,
            VkSurfaceTransformFlagBitsKHR::VK_SURFACE_TRANSFORM_ROTATE_90_BIT_KHR => 0x00000002,
            VkSurfaceTransformFlagBitsKHR::VK_SURFACE_TRANSFORM_ROTATE_180_BIT_KHR => 0x00000004,
            VkSurfaceTransformFlagBitsKHR::VK_SURFACE_TRANSFORM_ROTATE_270_BIT_KHR => 0x00000008,
            VkSurfaceTransformFlagBitsKHR::VK_SURFACE_TRANSFORM_HORIZONTAL_MIRROR_BIT_KHR =>
                0x00000010,
            VkSurfaceTransformFlagBitsKHR::VK_SURFACE_TRANSFORM_HORIZONTAL_MIRROR_ROTATE_90_BIT_KHR =>
                0x00000020,
            VkSurfaceTransformFlagBitsKHR::VK_SURFACE_TRANSFORM_HORIZONTAL_MIRROR_ROTATE_180_BIT_KHR =>
                0x00000040,
            VkSurfaceTransformFlagBitsKHR::VK_SURFACE_TRANSFORM_HORIZONTAL_MIRROR_ROTATE_270_BIT_KHR =>
                0x00000080,
            VkSurfaceTransformFlagBitsKHR::VK_SURFACE_TRANSFORM_INHERIT_BIT_KHR => 0x00000100,
        }
    }
}

pub type VkSurfaceTransformFlagsKHR = Flags<VkSurfaceTransformFlagBitsKHR>;

#[derive(Clone, Copy, Debug, PartialEq, Eq, Hash)]
pub enum VkCompositeAlphaFlagBitsKHR {
    VK_COMPOSITE_ALPHA_OPAQUE_BIT_KHR,
    VK_COMPOSITE_ALPHA_PRE_MULTIPLIED_BIT_KHR,
    VK_COMPOSITE_ALPHA_POST_MULTIPLIED_BIT_KHR,
    VK_COMPOSITE_ALPHA_INHERIT_BIT_KHR,
}

impl FlagBits for VkCompositeAlphaFlagBitsKHR {
    open spec fn spec_bits(&self) -> VkFlags {
        match self {
            VkCompositeAlphaFlagBitsKHR::VK_COMPOSITE_ALPHA_OPAQUE_BIT_KHR => 0x00000001u32,
            VkCompositeAlphaFlagBitsKHR::VK_COMPOSITE_ALPHA_PRE_MULTIPLIED_BIT_KHR => 0x00000002u32,
            VkCompositeAlphaFlagBitsKHR::VK_COMPOSITE_ALPHA_POST_MULTIPLIED_BIT_KHR =>
                0x00000004u32,
            VkCompositeAlphaFlagBitsKHR::VK_COMPOSITE_ALPHA_INHERIT_BIT_KHR => 0x00000008u32,
        }
    }

    fn bits(&self) -> (bits: VkFlags) {
        match self {
            VkCompositeAlphaFlagBitsKHR::VK_COMPOSITE_ALPHA_OPAQUE_BIT_KHR => 0x00000001,
            VkCompositeAlphaFlagBitsKHR::VK_COMPOSITE_ALPHA_PRE_MULTIPLIED_BIT_KHR => 0x00000002,
            VkCompositeAlphaFlagBitsKHR::VK_COMPOSITE_ALPHA_POST_MULTIPLIED_BIT_KHR => 0x00000004,
            VkCompositeAlphaFlagBitsKHR::VK_COMPOSITE_ALPHA_INHERIT_BIT_KHR => 0x00000008,
        }
    }
}

pub type VkCompositeAlphaFlagsKHR = Flags<VkCompositeAlphaFlagBitsKHR>;

#[derive(Clone, Copy, Debug, PartialEq, Eq, Hash)]
pub enum VkSwapchainCreateFlagBitsKHR {
    VK_SWAPCHAIN_CREATE_BIND_SFR_BIT_KHX,
}

impl FlagBits for VkSwapchainCreateFlagBitsKHR {
    open spec fn spec_bits(&self) -> VkFlags {
        match self {
            VkSwapchainCreateFlagBitsKHR::VK_SWAPCHAIN_CREATE_BIND_SFR_BIT_KHX => 0x00000001u32,
        }
    }

    fn bits(&self) -> (bits: VkFlags) {
        match self {
            VkSwapchainCreateFlagBitsKHR::VK_SWAPCHAIN_CREATE_BIND_SFR_BIT_KHX => 0x00000001,
        }
    }
}

pub type VkSwapchainCreateFlagsKHR = Flags<VkSwapchainCreateFlagBitsKHR>;

/// The kind of `VkDisplayModeCreateFlagsKHR`, which declares no flag yet.
#[derive(Clone, Copy, Debug, PartialEq, Eq, Hash)]
pub struct VkDisplayModeCreateFlagBitsKHR;

pub type VkDisplayModeCreateFlagsKHR = Flags<VkDisplayModeCreateFlagBitsKHR>;

#[derive(Clone, Copy, Debug, PartialEq, Eq, Hash)]
pub enum VkDisplayPlaneAlphaFlagBitsKHR {
    VK_DISPLAY_PLANE_ALPHA_OPAQUE_BIT_KHR,
    VK_DISPLAY_PLANE_ALPHA_GLOBAL_BIT_KHR,
    VK_DISPLAY_PLANE_ALPHA_PER_PIXEL_BIT_KHR,
    VK_DISPLAY_PLANE_ALPHA_PER_PIXEL_PREMULTIPLIED_BIT_KHR,
}

impl FlagBits for VkDisplayPlaneAlphaFlagBitsKHR {
    open spec fn spec_bits(&self) -> VkFlags {
        match self {
            VkDisplayPlaneAlphaFlagBitsKHR::VK_DISPLAY_PLANE_ALPHA_OPAQUE_BIT_KHR => 0x00000001u32,
            VkDisplayPlaneAlphaFlagBitsKHR::VK_DISPLAY_PLANE_ALPHA_GLOBAL_BIT_KHR => 0x00000002u32,
            VkDisplayPlaneAlphaFlagBitsKHR::VK_DISPLAY_PLANE_ALPHA_PER_PIXEL_BIT_KHR =>
                0x00000004u32,
            VkDisplayPlaneAlphaFlagBitsKHR::VK_DISPLAY_PLANE_ALPHA_PER_PIXEL_PREMULTIPLIED_BIT_KHR =>
                0x00000008u32,
        }
    }

    fn bits(&self) -> (bits: VkFlags) {
        match self {
            VkDisplayPlaneAlphaFlagBitsKHR::VK_DISPLAY_PLANE_ALPHA_OPAQUE_BIT_KHR => 0x00000001,
            VkDisplayPlaneAlphaFlagBitsKHR::VK_DISPLAY_PLANE_ALPHA_GLOBAL_BIT_KHR => 0x00000002,
            VkDisplayPlaneAlphaFlagBitsKHR::VK_DISPLAY_PLANE_ALPHA_PER_PIXEL_BIT_KHR => 0x00000004,
            VkDisplayPlaneAlphaFlagBitsKHR::VK_DISPLAY_PLANE_ALPHA_PER_PIXEL_PREMULTIPLIED_BIT_KHR =>
                0x00000008,
        }
    }
}

pub type VkDisplayPlaneAlphaFlagsKHR = Flags<VkDisplayPlaneAlphaFlagBitsKHR>;

/// The kind of `VkDisplaySurfaceCreateFlagsKHR`, which declares no flag yet.
#[derive(Clone, Copy, Debug, PartialEq, Eq, Hash)]
pub struct VkDisplaySurfaceCreateFlagBitsKHR;

pub type VkDisplaySurfaceCreateFlagsKHR = Flags<VkDisplaySurfaceCreateFlagBitsKHR>;

/// The kind of `VkXlibSurfaceCreateFlagsKHR`, which declares no flag yet.
#[derive(Clone, Copy, Debug, PartialEq, Eq, Hash)]
pub struct VkXlibSurfaceCreateFlagBitsKHR;

pub type VkXlibSurfaceCreateFlagsKHR = Flags<VkXlibSurfaceCreateFlagBitsKHR>;

/// The kind of `VkXcbSurfaceCreateFlagsKHR`, which declares no flag yet.
#[derive(Clone, Copy, Debug, PartialEq, Eq, Hash)]
pub struct VkXcbSurfaceCreateFlagBitsKHR;

pub type VkXcbSurfaceCreateFlagsKHR = Flags<VkXcbSurfaceCreateFlagBitsKHR>;

/// The kind of `VkWaylandSurfaceCreateFlagsKHR`, which declares no flag yet.
#[derive(Clone, Copy, Debug, PartialEq, Eq, Hash)]
pub struct VkWaylandSurfaceCreateFlagBitsKHR;

pub type VkWaylandSurfaceCreateFlagsKHR = Flags<VkWaylandSurfaceCreateFlagBitsKHR>;

/// The kind of `VkMirSurfaceCreateFlagsKHR`, which declares no flag yet.
#[derive(Clone, Copy, Debug, PartialEq, Eq, Hash)]
pub struct VkMirSurfaceCreateFlagBitsKHR;

pub type VkMirSurfaceCreateFlagsKHR = Flags<VkMirSurfaceCreateFlagBitsKHR>;

/// The kind of `VkAndroidSurfaceCreateFlagsKHR`, which declares no flag yet.
#[derive(Clone, Copy, Debug, PartialEq, Eq, Hash)]
pub struct VkAndroidSurfaceCreateFlagBitsKHR;

pub type VkAndroidSurfaceCreateFlagsKHR = Flags<VkAndroidSurfaceCreateFlagBitsKHR>;

/// The kind of `VkWin32SurfaceCreateFlagsKHR`, which declares no flag yet.
#[derive(Clone, Copy, Debug, PartialEq, Eq, Hash)]
pub struct VkWin32SurfaceCreateFlagBitsKHR;

pub type VkWin32SurfaceCreateFlagsKHR = Flags<VkWin32SurfaceCreateFlagBitsKHR>;

#[derive(Clone, Copy, Debug, PartialEq, Eq, Hash)]
pub enum VkDebugReportFlagBitsEXT {
    VK_DEBUG_REPORT_INFORMATION_BIT_EXT,
    VK_DEBUG_REPORT_WARNING_BIT_EXT,
    VK_DEBUG_REPORT_PERFORMANCE_WARNING_BIT_EXT,
    VK_DEBUG_REPORT_ERROR_BIT_EXT,
    VK_DEBUG_REPORT_DEBUG_BIT_EXT,
}

impl FlagBits for VkDebugReportFlagBitsEXT {
    open spec fn spec_bits(&self) -> VkFlags {
        match self {
            VkDebugReportFlagBitsEXT::VK_DEBUG_REPORT_INFORMATION_BIT_EXT => 0x00000001u32,
            VkDebugReportFlagBitsEXT::VK_DEBUG_REPORT_WARNING_BIT_EXT => 0x00000002u32,
            VkDebugReportFlagBitsEXT::VK_DEBUG_REPORT_PERFORMANCE_WARNING_BIT_EXT => 0x00000004u32,
            VkDebugReportFlagBitsEXT::VK_DEBUG_REPORT_ERROR_BIT_EXT => 0x00000008u32,
            VkDebugReportFlagBitsEXT::VK_DEBUG_REPORT_DEBUG_BIT_EXT => 0x00000010u32,
        }
    }

    fn bits(&self) -> (bits: VkFlags) {
        match self {
            VkDebugReportFlagBitsEXT::VK_DEBUG_REPORT_INFORMATION_BIT_EXT => 0x00000001,
            VkDebugReportFlagBitsEXT::VK_DEBUG_REPORT_WARNING_BIT_EXT => 0x00000002,
            VkDebugReportFlagBitsEXT::VK_DEBUG_REPORT_PERFORMANCE_WARNING_BIT_EXT => 0x00000004,
            VkDebugReportFlagBitsEXT::VK_DEBUG_REPORT_ERROR_BIT_EXT => 0x00000008,
            VkDebugReportFlagBitsEXT::VK_DEBUG_REPORT_DEBUG_BIT_EXT => 0x00000010,
        }
    }
}

pub type VkDebugReportFlagsEXT = Flags<VkDebugReportFlagBitsEXT>;

#[derive(Clone, Copy, Debug, PartialEq, Eq, Hash)]
pub enum VkExternalMemoryHandleTypeFlagBitsNV {
    VK_EXTERNAL_MEMORY_HANDLE_TYPE_OPAQUE_WIN32_BIT_NV,
    VK_EXTERNAL_MEMORY_HANDLE_TYPE_OPAQUE_WIN32_KMT_BIT_NV,
    VK_EXTERNAL_MEMORY_HANDLE_TYPE_D3D11_IMAGE_BIT_NV,
    VK_EXTERNAL_MEMORY_HANDLE_TYPE_D3D11_IMAGE_KMT_BIT_NV,
}

impl FlagBits for VkExternalMemoryHandleTypeFlagBitsNV {
    open spec fn spec_bits(&self) -> VkFlags {
        match self {
            VkExternalMemoryHandleTypeFlagBitsNV::VK_EXTERNAL_MEMORY_HANDLE_TYPE_OPAQUE_WIN32_BIT_NV =>
                0x00000001u32,
            VkExternalMemoryHandleTypeFlagBitsNV::VK_EXTERNAL_MEMORY_HANDLE_TYPE_OPAQUE_WIN32_KMT_BIT_NV =>
                0x00000002u32,
            VkExternalMemoryHandleTypeFlagBitsNV::VK_EXTERNAL_MEMORY_HANDLE_TYPE_D3D11_IMAGE_BIT_NV =>
                0x00000004u32,
            VkExternalMemoryHandleTypeFlagBitsNV::VK_EXTERNAL_MEMORY_HANDLE_TYPE_D3D11_IMAGE_KMT_BIT_NV =>
                0x00000008u32,
        }
    }

    fn bits(&self) -> (bits: VkFlags) {
        match self {
            VkExternalMemoryHandleTypeFlagBitsNV::VK_EXTERNAL_MEMORY_HANDLE_TYPE_OPAQUE_WIN32_BIT_NV =>
                0x00000001,
            VkExternalMemoryHandleTypeFlagBitsNV::VK_EXTERNAL_MEMORY_HANDLE_TYPE_OPAQUE_WIN32_KMT_BIT_NV =>
                0x00000002,
            VkExternalMemoryHandleTypeFlagBitsNV::VK_EXTERNAL_MEMORY_HANDLE_TYPE_D3D11_IMAGE_BIT_NV =>
                0x00000004,
            VkExternalMemoryHandleTypeFlagBitsNV::VK_EXTERNAL_MEMORY_HANDLE_TYPE_D3D11_IMAGE_KMT_BIT_NV =>
                0x00000008,
        }
    }
}

pub type VkExternalMemoryHandleTypeFlagsNV = Flags<VkExternalMemoryHandleTypeFlagBitsNV>;

#[derive(Clone, Copy, Debug, PartialEq, Eq, Hash)]
pub enum VkExternalMemoryFeatureFlagBitsNV {
    VK_EXTERNAL_MEMORY_FEATURE_DEDICATED_ONLY_BIT_NV,
    VK_EXTERNAL_MEMORY_FEATURE_EXPORTABLE_BIT_NV,
    VK_EXTERNAL_MEMORY_FEATURE_IMPORTABLE_BIT_NV,
}

impl FlagBits for VkExternalMemoryFeatureFlagBitsNV {
    open spec fn spec_bits(&self) -> VkFlags {
        match self {
            VkExternalMemoryFeatureFlagBitsNV::VK_EXTERNAL_MEMORY_FEATURE_DEDICATED_ONLY_BIT_NV =>
                0x00000001u32,
            VkExternalMemoryFeatureFlagBitsNV::VK_EXTERNAL_MEMORY_FEATURE_EXPORTABLE_BIT_NV =>
                0x00000002u32,
            VkExternalMemoryFeatureFlagBitsNV::VK_EXTERNAL_MEMORY_FEATURE_IMPORTABLE_BIT_NV =>
                0x00000004u32,
        }
    }

    fn bits(&self) -> (bits: VkFlags) {
        match self {
            VkExternalMemoryFeatureFlagBitsNV::VK_EXTERNAL_MEMORY_FEATURE_DEDICATED_ONLY_BIT_NV =>
                0x00000001,
            VkExternalMemoryFeatureFlagBitsNV::VK_EXTERNAL_MEMORY_FEATURE_EXPORTABLE_BIT_NV =>
                0x00000002,
            VkExternalMemoryFeatureFlagBitsNV::VK_EXTERNAL_MEMORY_FEATURE_IMPORTABLE_BIT_NV =>
                0x00000004,
        }
    }
}

pub type VkExternalMemoryFeatureFlagsNV = Flags<VkExternalMemoryFeatureFlagBitsNV>;

#[derive(Clone, Copy, Debug, PartialEq, Eq, Hash)]
pub enum VkPeerMemoryFeatureFlagBitsKHX {
    VK_PEER_MEMORY_FEATURE_COPY_SRC_BIT_KHX,
    VK_PEER_MEMORY_FEATURE_COPY_DST_BIT_KHX,
    VK_PEER_MEMORY_FEATURE_GENERIC_SRC_BIT_KHX,
    VK_PEER_MEMORY_FEATURE_GENERIC_DST_BIT_KHX,
}

impl FlagBits for VkPeerMemoryFeatureFlagBitsKHX {
    open spec fn spec_bits(&self) -> VkFlags {
        match self {
            VkPeerMemoryFeatureFlagBitsKHX::VK_PEER_MEMORY_FEATURE_COPY_SRC_BIT_KHX =>
                0x00000001u32,
            VkPeerMemoryFeatureFlagBitsKHX::VK_PEER_MEMORY_FEATURE_COPY_DST_BIT_KHX =>
                0x00000002u32,
            VkPeerMemoryFeatureFlagBitsKHX::VK_PEER_MEMORY_FEATURE_GENERIC_SRC_BIT_KHX =>
                0x00000004u32,
            VkPeerMemoryFeatureFlagBitsKHX::VK_PEER_MEMORY_FEATURE_GENERIC_DST_BIT_KHX =>
                0x00000008u32,
        }
    }

    fn bits(&self) -> (bits: VkFlags) {
        match self {
            VkPeerMemoryFeatureFlagBitsKHX::VK_PEER_MEMORY_FEATURE_COPY_SRC_BIT_KHX => 0x00000001,
            VkPeerMemoryFeatureFlagBitsKHX::VK_PEER_MEMORY_FEATURE_COPY_DST_BIT_KHX => 0x00000002,
            VkPeerMemoryFeatureFlagBitsKHX::VK_PEER_MEMORY_FEATURE_GENERIC_SRC_BIT_KHX =>
                0x00000004,
            VkPeerMemoryFeatureFlagBitsKHX::VK_PEER_MEMORY_FEATURE_GENERIC_DST_BIT_KHX =>
                0x00000008,
        }
    }
}

pub type VkPeerMemoryFeatureFlagsKHX = Flags<VkPeerMemoryFeatureFlagBitsKHX>;

#[derive(Clone, Copy, Debug, PartialEq, Eq, Hash)]
pub enum VkDeviceGroupPresentModeFlagBitsKHX {
    VK_DEVICE_GROUP_PRESENT_MODE_LOCAL_BIT_KHX,
    VK_DEVICE_GROUP_PRESENT_MODE_REMOTE_BIT_KHX,
    VK_DEVICE_GROUP_PRESENT_MODE_SUM_BIT_KHX,
    VK_DEVICE_GROUP_PRESENT_MODE_LOCAL_MULTI_DEVICE_BIT_KHX,
}

impl FlagBits for VkDeviceGroupPresentModeFlagBitsKHX {
    open spec fn spec_bits(&self) -> VkFlags {
        match self {
            VkDeviceGroupPresentModeFlagBitsKHX::VK_DEVICE_GROUP_PRESENT_MODE_LOCAL_BIT_KHX =>
                0x00000001u32,
            VkDeviceGroupPresentModeFlagBitsKHX::VK_DEVICE_GROUP_PRESENT_MODE_REMOTE_BIT_KHX =>
                0x00000002u32,
            VkDeviceGroupPresentModeFlagBitsKHX::VK_DEVICE_GROUP_PRESENT_MODE_SUM_BIT_KHX =>
                0x00000004u32,
            VkDeviceGroupPresentModeFlagBitsKHX::VK_DEVICE_GROUP_PRESENT_MODE_LOCAL_MULTI_DEVICE_BIT_KHX =>
                0x00000008u32,
        }
    }

    fn bits(&self) -> (bits: VkFlags) {
        match self {
            VkDeviceGroupPresentModeFlagBitsKHX::VK_DEVICE_GROUP_PRESENT_MODE_LOCAL_BIT_KHX =>
                0x00000001,
            VkDeviceGroupPresentModeFlagBitsKHX::VK_DEVICE_GROUP_PRESENT_MODE_REMOTE_BIT_KHX =>
                0x00000002,
            VkDeviceGroupPresentModeFlagBitsKHX::VK_DEVICE_GROUP_PRESENT_MODE_SUM_BIT_KHX =>
                0x00000004,
            VkDeviceGroupPresentModeFlagBitsKHX::VK_DEVICE_GROUP_PRESENT_MODE_LOCAL_MULTI_DEVICE_BIT_KHX =>
                0x00000008,
        }
    }
}

pub type VkDeviceGroupPresentModeFlagsKHX = Flags<VkDeviceGroupPresentModeFlagBitsKHX>;

#[derive(Clone, Copy, Debug, PartialEq, Eq, Hash)]
pub enum VkMemoryAllocateFlagBitsKHX {
    VK_MEMORY_ALLOCATE_DEVICE_MASK_BIT_KHX,
}

impl FlagBits for VkMemoryAllocateFlagBitsKHX {
    open spec fn spec_bits(&self) -> VkFlags {
        match self {
            VkMemoryAllocateFlagBitsKHX::VK_MEMORY_ALLOCATE_DEVICE_MASK_BIT_KHX => 0x00000001u32,
        }
    }

    fn bits(&self) -> (bits: VkFlags) {
        match self {
            VkMemoryAllocateFlagBitsKHX::VK_MEMORY_ALLOCATE_DEVICE_MASK_BIT_KHX => 0x00000001,
        }
    }
}

pub type VkMemoryAllocateFlagsKHX = Flags<VkMemoryAllocateFlagBitsKHX>;

/// The kind of `VkViSurfaceCreateFlagsNN`, which declares no flag yet.
#[derive(Clone, Copy, Debug, PartialEq, Eq, Hash)]
pub struct VkViSurfaceCreateFlagBitsNN;

pub type VkViSurfaceCreateFlagsNN = Flags<VkViSurfaceCreateFlagBitsNN>;

/// The kind of `VkCommandPoolTrimFlagsKHR`, which declares no flag yet.
#[derive(Clone, Copy, Debug, PartialEq, Eq, Hash)]
pub struct VkCommandPoolTrimFlagBitsKHR;

pub type VkCommandPoolTrimFlagsKHR = Flags<VkCommandPoolTrimFlagBitsKHR>;

#[derive(Clone, Copy, Debug, PartialEq, Eq, Hash)]
pub enum VkExternalMemoryFeatureFlagBitsKHX {
    VK_EXTERNAL_MEMORY_FEATURE_DEDICATED_ONLY_BIT_KHX,
    VK_EXTERNAL_MEMORY_FEATURE_EXPORTABLE_BIT_KHX,
    VK_EXTERNAL_MEMORY_FEATURE_IMPORTABLE_BIT_KHX,
}

impl FlagBits for VkExternalMemoryFeatureFlagBitsKHX {
    open spec fn spec_bits(&self) -> VkFlags {
        match self {
            VkExternalMemoryFeatureFlagBitsKHX::VK_EXTERNAL_MEMORY_FEATURE_DEDICATED_ONLY_BIT_KHX =>
                0x00000001u32,
            VkExternalMemoryFeatureFlagBitsKHX::VK_EXTERNAL_MEMORY_FEATURE_EXPORTABLE_BIT_KHX =>
                0x00000002u32,
            VkExternalMemoryFeatureFlagBitsKHX::VK_EXTERNAL_MEMORY_FEATURE_IMPORTABLE_BIT_KHX =>
                0x00000004u32,
        }
    }

    fn bits(&self) -> (bits: VkFlags) {
        match self {
            VkExternalMemoryFeatureFlagBitsKHX::VK_EXTERNAL_MEMORY_FEATURE_DEDICATED_ONLY_BIT_KHX =>
                0x00000001,
            VkExternalMemoryFeatureFlagBitsKHX::VK_EXTERNAL_MEMORY_FEATURE_EXPORTABLE_BIT_KHX =>
                0x00000002,
            VkExternalMemoryFeatureFlagBitsKHX::VK_EXTERNAL_MEMORY_FEATURE_IMPORTABLE_BIT_KHX =>
                0x00000004,
        }
    }
}

pub type VkExternalMemoryFeatureFlagsKHX = Flags<VkExternalMemoryFeatureFlagBitsKHX>;

#[derive(Clone, Copy, Debug, PartialEq, Eq, Hash)]
pub enum VkExternalMemoryHandleTypeFlagBitsKHX {
    VK_EXTERNAL_MEMORY_HANDLE_TYPE_OPAQUE_FD_BIT_KHX,
    VK_EXTERNAL_MEMORY_HANDLE_TYPE_OPAQUE_WIN32_BIT_KHX,
    VK_EXTERNAL_MEMORY_HANDLE_TYPE_OPAQUE_WIN32_KMT_BIT_KHX,
    VK_EXTERNAL_MEMORY_HANDLE_TYPE_D3D11_TEXTURE_BIT_KHX,
    VK_EXTERNAL_MEMORY_HANDLE_TYPE_D3D11_TEXTURE_KMT_BIT_KHX,
    VK_EXTERNAL_MEMORY_HANDLE_TYPE_D3D12_HEAP_BIT_KHX,
    VK_EXTERNAL_MEMORY_HANDLE_TYPE_D3D12_RESOURCE_BIT_KHX,
}

impl FlagBits for VkExternalMemoryHandleTypeFlagBitsKHX {
    open spec fn spec_bits(&self) -> VkFlags {
        match self {
            VkExternalMemoryHandleTypeFlagBitsKHX::VK_EXTERNAL_MEMORY_HANDLE_TYPE_OPAQUE_FD_BIT_KHX =>
                0x00000001u32,
            VkExternalMemoryHandleTypeFlagBitsKHX::VK_EXTERNAL_MEMORY_HANDLE_TYPE_OPAQUE_WIN32_BIT_KHX =>
                0x00000002u32,
            VkExternalMemoryHandleTypeFlagBitsKHX::VK_EXTERNAL_MEMORY_HANDLE_TYPE_OPAQUE_WIN32_KMT_BIT_KHX =>
                0x00000004u32,
            VkExternalMemoryHandleTypeFlagBitsKHX::VK_EXTERNAL_MEMORY_HANDLE_TYPE_D3D11_TEXTURE_BIT_KHX =>
                0x00000008u32,
            VkExternalMemoryHandleTypeFlagBitsKHX::VK_EXTERNAL_MEMORY_HANDLE_TYPE_D3D11_TEXTURE_KMT_BIT_KHX =>
                0x00000010u32,
            VkExternalMemoryHandleTypeFlagBitsKHX::VK_EXTERNAL_MEMORY_HANDLE_TYPE_D3D12_HEAP_BIT_KHX =>
                0x00000020u32,
            VkExternalMemoryHandleTypeFlagBitsKHX::VK_EXTERNAL_MEMORY_HANDLE_TYPE_D3D12_RESOURCE_BIT_KHX =>
                0x00000040u32,
        }
    }

    fn bits(&self) -> (bits: VkFlags) {
        match self {
            VkExternalMemoryHandleTypeFlagBitsKHX::VK_EXTERNAL_MEMORY_HANDLE_TYPE_OPAQUE_FD_BIT_KHX =>
                0x00000001,
            VkExternalMemoryHandleTypeFlagBitsKHX::VK_EXTERNAL_MEMORY_HANDLE_TYPE_OPAQUE_WIN32_BIT_KHX =>
                0x00000002,
            VkExternalMemoryHandleTypeFlagBitsKHX::VK_EXTERNAL_MEMORY_HANDLE_TYPE_OPAQUE_WIN32_KMT_BIT_KHX =>
                0x00000004,
            VkExternalMemoryHandleTypeFlagBitsKHX::VK_EXTERNAL_MEMORY_HANDLE_TYPE_D3D11_TEXTURE_BIT_KHX =>
                0x00000008,
            VkExternalMemoryHandleTypeFlagBitsKHX::VK_EXTERNAL_MEMORY_HANDLE_TYPE_D3D11_TEXTURE_KMT_BIT_KHX =>
                0x00000010,
            VkExternalMemoryHandleTypeFlagBitsKHX::VK_EXTERNAL_MEMORY_HANDLE_TYPE_D3D12_HEAP_BIT_KHX =>
                0x00000020,
            VkExternalMemoryHandleTypeFlagBitsKHX::VK_EXTERNAL_MEMORY_HANDLE_TYPE_D3D12_RESOURCE_BIT_KHX =>
                0x00000040,
        }
    }
}

pub type VkExternalMemoryHandleTypeFlagsKHX = Flags<VkExternalMemoryHandleTypeFlagBitsKHX>;

#[derive(Clone, Copy, Debug, PartialEq, Eq, Hash)]
pub enum VkExternalSemaphoreHandleTypeFlagBitsKHX {
    VK_EXTERNAL_SEMAPHORE_HANDLE_TYPE_OPAQUE_FD_BIT_KHX,
    VK_EXTERNAL_SEMAPHORE_HANDLE_TYPE_OPAQUE_WIN32_BIT_KHX,
    VK_EXTERNAL_SEMAPHORE_HANDLE_TYPE_OPAQUE_WIN32_KMT_BIT_KHX,
    VK_EXTERNAL_SEMAPHORE_HANDLE_TYPE_D3D12_FENCE_BIT_KHX,
    VK_EXTERNAL_SEMAPHORE_HANDLE_TYPE_FENCE_FD_BIT_KHX,
}

impl FlagBits for VkExternalSemaphoreHandleTypeFlagBitsKHX {
    open spec fn spec_bits(&self) -> VkFlags {
        match self {
            VkExternalSemaphoreHandleTypeFlagBitsKHX::VK_EXTERNAL_SEMAPHORE_HANDLE_TYPE_OPAQUE_FD_BIT_KHX =>
                0x00000001u32,
            VkExternalSemaphoreHandleTypeFlagBitsKHX::VK_EXTERNAL_SEMAPHORE_HANDLE_TYPE_OPAQUE_WIN32_BIT_KHX =>
                0x00000002u32,
            VkExternalSemaphoreHandleTypeFlagBitsKHX::VK_EXTERNAL_SEMAPHORE_HANDLE_TYPE_OPAQUE_WIN32_KMT_BIT_KHX =>
                0x00000004u32,
            VkExternalSemaphoreHandleTypeFlagBitsKHX::VK_EXTERNAL_SEMAPHORE_HANDLE_TYPE_D3D12_FENCE_BIT_KHX =>
                0x00000008u32,
            VkExternalSemaphoreHandleTypeFlagBitsKHX::VK_EXTERNAL_SEMAPHORE_HANDLE_TYPE_FENCE_FD_BIT_KHX =>
                0x00000010u32,
        }
    }

    fn bits(&self) -> (bits: VkFlags) {
        match self {
            VkExternalSemaphoreHandleTypeFlagBitsKHX::VK_EXTERNAL_SEMAPHORE_HANDLE_TYPE_OPAQUE_FD_BIT_KHX =>
                0x00000001,
            VkExternalSemaphoreHandleTypeFlagBitsKHX::VK_EXTERNAL_SEMAPHORE_HANDLE_TYPE_OPAQUE_WIN32_BIT_KHX =>
                0x00000002,
            VkExternalSemaphoreHandleTypeFlagBitsKHX::VK_EXTERNAL_SEMAPHORE_HANDLE_TYPE_OPAQUE_WIN32_KMT_BIT_KHX =>
                0x00000004,
            VkExternalSemaphoreHandleTypeFlagBitsKHX::VK_EXTERNAL_SEMAPHORE_HANDLE_TYPE_D3D12_FENCE_BIT_KHX =>
                0x00000008,
            VkExternalSemaphoreHandleTypeFlagBitsKHX::VK_EXTERNAL_SEMAPHORE_HANDLE_TYPE_FENCE_FD_BIT_KHX =>
                0x00000010,
        }
    }
}

pub type VkExternalSemaphoreHandleTypeFlagsKHX = Flags<VkExternalSemaphoreHandleTypeFlagBitsKHX>;

#[derive(Clone, Copy, Debug, PartialEq, Eq, Hash)]
pub enum VkExternalSemaphoreFeatureFlagBitsKHX {
    VK_EXTERNAL_SEMAPHORE_FEATURE_EXPORTABLE_BIT_KHX,
    VK_EXTERNAL_SEMAPHORE_FEATURE_IMPORTABLE_BIT_KHX,
}

impl FlagBits for VkExternalSemaphoreFeatureFlagBitsKHX {
    open spec fn spec_bits(&self) -> VkFlags {
        match self {
            VkExternalSemaphoreFeatureFlagBitsKHX::VK_EXTERNAL_SEMAPHORE_FEATURE_EXPORTABLE_BIT_KHX =>
                0x00000001u32,
            VkExternalSemaphoreFeatureFlagBitsKHX::VK_EXTERNAL_SEMAPHORE_FEATURE_IMPORTABLE_BIT_KHX =>
                0x00000002u32,
        }
    }

    fn bits(&self) -> (bits: VkFlags) {
        match self {
            VkExternalSemaphoreFeatureFlagBitsKHX::VK_EXTERNAL_SEMAPHORE_FEATURE_EXPORTABLE_BIT_KHX =>
                0x00000001,
            VkExternalSemaphoreFeatureFlagBitsKHX::VK_EXTERNAL_SEMAPHORE_FEATURE_IMPORTABLE_BIT_KHX =>
                0x00000002,
        }
    }
}

pub type VkExternalSemaphoreFeatureFlagsKHX = Flags<VkExternalSemaphoreFeatureFlagBitsKHX>;

/// The kind of `VkDescriptorUpdateTemplateCreateFlagsKHR`, which declares no flag yet.
#[derive(Clone, Copy, Debug, PartialEq, Eq, Hash)]
pub struct VkDescriptorUpdateTemplateCreateFlagBitsKHR;

pub type VkDescriptorUpdateTemplateCreateFlagsKHR = Flags<VkDescriptorUpdateTemplateCreateFlagBitsKHR>;

#[derive(Clone, Copy, Debug, PartialEq, Eq, Hash)]
pub enum VkIndirectCommandsLayoutUsageFlagBitsNVX {
    VK_INDIRECT_COMMANDS_LAYOUT_USAGE_UNORDERED_SEQUENCES_BIT_NVX,
    VK_INDIRECT_COMMANDS_LAYOUT_USAGE_SPARSE_SEQUENCES_BIT_NVX,
    VK_INDIRECT_COMMANDS_LAYOUT_USAGE_EMPTY_EXECUTIONS_BIT_NVX,
    VK_INDIRECT_COMMANDS_LAYOUT_USAGE_INDEXED_SEQUENCES_BIT_NVX,
}

impl FlagBits for VkIndirectCommandsLayoutUsageFlagBitsNVX {
    open spec fn spec_bits(&self) -> VkFlags {
        match self {
            VkIndirectCommandsLayoutUsageFlagBitsNVX::VK_INDIRECT_COMMANDS_LAYOUT_USAGE_UNORDERED_SEQUENCES_BIT_NVX =>
                0x00000001u32,
            VkIndirectCommandsLayoutUsageFlagBitsNVX::VK_INDIRECT_COMMANDS_LAYOUT_USAGE_SPARSE_SEQUENCES_BIT_NVX =>
                0x00000002u32,
            VkIndirectCommandsLayoutUsageFlagBitsNVX::VK_INDIRECT_COMMANDS_LAYOUT_USAGE_EMPTY_EXECUTIONS_BIT_NVX =>
                0x00000004u32,
            VkIndirectCommandsLayoutUsageFlagBitsNVX::VK_INDIRECT_COMMANDS_LAYOUT_USAGE_INDEXED_SEQUENCES_BIT_NVX =>
                0x00000008u32,
        }
    }

    fn bits(&self) -> (bits: VkFlags) {
        match self {
            VkIndirectCommandsLayoutUsageFlagBitsNVX::VK_INDIRECT_COMMANDS_LAYOUT_USAGE_UNORDERED_SEQUENCES_BIT_NVX =>
                0x00000001,
            VkIndirectCommandsLayoutUsageFlagBitsNVX::VK_INDIRECT_COMMANDS_LAYOUT_USAGE_SPARSE_SEQUENCES_BIT_NVX =>
                0x00000002,
            VkIndirectCommandsLayoutUsageFlagBitsNVX::VK_INDIRECT_COMMANDS_LAYOUT_USAGE_EMPTY_EXECUTIONS_BIT_NVX =>
                0x00000004,
            VkIndirectCommandsLayoutUsageFlagBitsNVX::VK_INDIRECT_COMMANDS_LAYOUT_USAGE_INDEXED_SEQUENCES_BIT_NVX =>
                0x00000008,
        }
    }
}

pub type VkIndirectCommandsLayoutUsageFlagsNVX = Flags<VkIndirectCommandsLayoutUsageFlagBitsNVX>;

#[derive(Clone, Copy, Debug, PartialEq, Eq, Hash)]
pub enum VkObjectEntryUsageFlagBitsNVX {
    VK_OBJECT_ENTRY_USAGE_GRAPHICS_BIT_NVX,
    VK_OBJECT_ENTRY_USAGE_COMPUTE_BIT_NVX,
}

impl FlagBits for VkObjectEntryUsageFlagBitsNVX {
    open spec fn spec_bits(&self) -> VkFlags {
        match self {
            VkObjectEntryUsageFlagBitsNVX::VK_OBJECT_ENTRY_USAGE_GRAPHICS_BIT_NVX => 0x00000001u32,
            VkObjectEntryUsageFlagBitsNVX::VK_OBJECT_ENTRY_USAGE_COMPUTE_BIT_NVX => 0x00000002u32,
        }
    }

    fn bits(&self) -> (bits: VkFlags) {
        match self {
            VkObjectEntryUsageFlagBitsNVX::VK_OBJECT_ENTRY_USAGE_GRAPHICS_BIT_NVX => 0x00000001,
            VkObjectEntryUsageFlagBitsNVX::VK_OBJECT_ENTRY_USAGE_COMPUTE_BIT_NVX => 0x00000002,
        }
    }
}

pub type VkObjectEntryUsageFlagsNVX = Flags<VkObjectEntryUsageFlagBitsNVX>;

#[derive(Clone, Copy, Debug, PartialEq, Eq, Hash)]
pub enum VkSurfaceCounterFlagBitsEXT {
    VK_SURFACE_COUNTER_VBLANK_EXT,
}

impl FlagBits for VkSurfaceCounterFlagBitsEXT {
    open spec fn spec_bits(&self) -> VkFlags {
        match self {
            VkSurfaceCounterFlagBitsEXT::VK_SURFACE_COUNTER_VBLANK_EXT => 0x00000001u32,
        }
    }

    fn bits(&self) -> (bits: VkFlags) {
        match self {
            VkSurfaceCounterFlagBitsEXT::VK_SURFACE_COUNTER_VBLANK_EXT => 0x00000001,
        }
    }
}

pub type VkSurfaceCounterFlagsEXT = Flags<VkSurfaceCounterFlagBitsEXT>;

/// The kind of `VkPipelineViewportSwizzleStateCreateFlagsNV`, which declares no flag yet.
#[derive(Clone, Copy, Debug, PartialEq, Eq, Hash)]
pub struct VkPipelineViewportSwizzleStateCreateFlagBitsNV;

pub type VkPipelineViewportSwizzleStateCreateFlagsNV = Flags<VkPipelineViewportSwizzleStateCreateFlagBitsNV>;

/// The kind of `VkPipelineDiscardRectangleStateCreateFlagsEXT`, which declares no flag yet.
#[derive(Clone, Copy, Debug, PartialEq, Eq, Hash)]
pub struct VkPipelineDiscardRectangleStateCreateFlagBitsEXT;

pub type VkPipelineDiscardRectangleStateCreateFlagsEXT = Flags<VkPipelineDiscardRectangleStateCreateFlagBitsEXT>;

/// The kind of `VkIOSSurfaceCreateFlagsMVK`, which declares no flag yet.
#[derive(Clone, Copy, Debug, PartialEq, Eq, Hash)]
pub struct VkIOSSurfaceCreateFlagBitsMVK;

pub type VkIOSSurfaceCreateFlagsMVK = Flags<VkIOSSurfaceCreateFlagBitsMVK>;

/// The kind of `VkMacOSSurfaceCreateFlagsMVK`, which declares no flag yet.
#[derive(Clone, Copy, Debug, PartialEq, Eq, Hash)]
pub struct VkMacOSSurfaceCreateFlagBitsMVK;

pub type VkMacOSSurfaceCreateFlagsMVK = Flags<VkMacOSSurfaceCreateFlagBitsMVK>;

} // verus!
