use vstd::prelude::*;
use crate::command::{Command, Tier};
use crate::dispatch::{device_extension_context, instance_context, InstanceDispatchTable};
use crate::entry::VulkanEntry;
use crate::error::LoadError;
use crate::handles::{VkDevice, VkInstance};
use crate::loading::{all_callable, load_outcome};
use crate::resolve::{ProcAddrCall, ResolutionContext};
use crate::table::DispatchTable;

verus! {

/// Whether an extension belongs to an instance or to a device: what must
/// exist before its table can be made.
#[derive(Clone, Copy, Debug, PartialEq, Eq, Hash, Structural)]
pub enum ExtensionKind {
    Instance,
    Device,
}

/// The extensions whose commands this library can resolve.
#[derive(Clone, Copy, Debug, PartialEq, Eq, Hash, Structural)]
pub enum Extension {
    VK_KHR_surface,
    VK_KHR_swapchain,
    VK_KHR_display,
    VK_KHR_display_swapchain,
    VK_KHR_xlib_surface,
    VK_KHR_xcb_surface,
    VK_KHR_wayland_surface,
    VK_KHR_mir_surface,
    VK_KHR_android_surface,
    VK_KHR_win32_surface,
    VK_EXT_debug_report,
    VK_NV_glsl_shader,
    VK_KHR_sampler_mirror_clamp_to_edge,
    VK_IMG_filter_cubic,
    VK_AMD_rasterization_order,
    VK_AMD_shader_trinary_minmax,
    VK_AMD_shader_explicit_vertex_parameter,
    VK_EXT_debug_marker,
    VK_AMD_gcn_shader,
    VK_NV_dedicated_allocation,
    VK_AMD_draw_indirect_count,
    VK_AMD_negative_viewport_height,
    VK_AMD_gpu_shader_half_float,
    VK_AMD_shader_ballot,
    VK_KHX_multiview,
    VK_IMG_format_pvrtc,
    VK_NV_external_memory_capabilities,
    VK_NV_external_memory,
    VK_NV_external_memory_win32,
    VK_NV_win32_keyed_mutex,
    VK_KHR_get_physical_device_properties2,
    VK_KHX_device_group,
    VK_EXT_validation_flags,
    VK_NN_vi_surface,
    VK_KHR_shader_draw_parameters,
    VK_EXT_shader_subgroup_ballot,
    VK_EXT_shader_subgroup_vote,
    VK_KHR_maintenance1,
    VK_KHX_device_group_creation,
    VK_KHX_external_memory_capabilities,
    VK_KHX_external_memory,
    VK_KHX_external_memory_win32,
    VK_KHX_external_memory_fd,
    VK_KHX_win32_keyed_mutex,
    VK_KHX_external_semaphore_capabilities,
    VK_KHX_external_semaphore,
    VK_KHX_external_semaphore_win32,
    VK_KHX_external_semaphore_fd,
    VK_KHR_push_descriptor,
    VK_KHR_incremental_present,
    VK_KHR_descriptor_update_template,
    VK_NVX_device_generated_commands,
    VK_NV_clip_space_w_scaling,
    VK_EXT_direct_mode_display,
    VK_EXT_acquire_xlib_display,
    VK_EXT_display_surface_counter,
    VK_EXT_display_control,
    VK_GOOGLE_display_timing,
    VK_NV_sample_mask_override_coverage,
    VK_NV_geometry_shader_passthrough,
    VK_NV_viewport_array2,
    VK_NVX_multiview_per_view_attributes,
    VK_NV_viewport_swizzle,
    VK_EXT_discard_rectangles,
    VK_EXT_swapchain_colorspace,
    VK_EXT_hdr_metadata,
    VK_MVK_ios_surface,
    VK_MVK_macos_surface,
}

impl Extension {
    pub open spec fn spec_kind(&self) -> ExtensionKind {
        match self {
            Extension::VK_KHR_surface => ExtensionKind::Instance,
            Extension::VK_KHR_swapchain => ExtensionKind::Device,
            Extension::VK_KHR_display => ExtensionKind::Instance,
            Extension::VK_KHR_display_swapchain => ExtensionKind::Device,
            Extension::VK_KHR_xlib_surface => ExtensionKind::Instance,
            Extension::VK_KHR_xcb_surface => ExtensionKind::Instance,
            Extension::VK_KHR_wayland_surface => ExtensionKind::Instance,
            Extension::VK_KHR_mir_surface => ExtensionKind::Instance,
            Extension::VK_KHR_android_surface => ExtensionKind::Instance,
            Extension::VK_KHR_win32_surface => ExtensionKind::Instance,
            Extension::VK_EXT_debug_report => ExtensionKind::Instance,
            Extension::VK_NV_glsl_shader => ExtensionKind::Device,
            Extension::VK_KHR_sampler_mirror_clamp_to_edge => ExtensionKind::Device,
            Extension::VK_IMG_filter_cubic => ExtensionKind::Device,
            Extension::VK_AMD_rasterization_order => ExtensionKind::Device,
            Extension::VK_AMD_shader_trinary_minmax => ExtensionKind::Device,
            Extension::VK_AMD_shader_explicit_vertex_parameter => ExtensionKind::Device,
            Extension::VK_EXT_debug_marker => ExtensionKind::Device,
            Extension::VK_AMD_gcn_shader => ExtensionKind::Device,
            Extension::VK_NV_dedicated_allocation => ExtensionKind::Device,
            Extension::VK_AMD_draw_indirect_count => ExtensionKind::Device,
            Extension::VK_AMD_negative_viewport_height => ExtensionKind::Device,
            Extension::VK_AMD_gpu_shader_half_float => ExtensionKind::Device,
            Extension::VK_AMD_shader_ballot => ExtensionKind::Device,
            Extension::VK_KHX_multiview => ExtensionKind::Device,
            Extension::VK_IMG_format_pvrtc => ExtensionKind::Device,
            Extension::VK_NV_external_memory_capabilities => ExtensionKind::Instance,
            Extension::VK_NV_external_memory => ExtensionKind::Device,
            Extension::VK_NV_external_memory_win32 => ExtensionKind::Device,
            Extension::VK_NV_win32_keyed_mutex => ExtensionKind::Device,
            Extension::VK_KHR_get_physical_device_properties2 => ExtensionKind::Instance,
            Extension::VK_KHX_device_group => ExtensionKind::Device,
            Extension::VK_EXT_validation_flags => ExtensionKind::Instance,
            Extension::VK_NN_vi_surface => ExtensionKind::Instance,
            Extension::VK_KHR_shader_draw_parameters => ExtensionKind::Device,
            Extension::VK_EXT_shader_subgroup_ballot => ExtensionKind::Device,
            Extension::VK_EXT_shader_subgroup_vote => ExtensionKind::Device,
            Extension::VK_KHR_maintenance1 => ExtensionKind::Device,
            Extension::VK_KHX_device_group_creation => ExtensionKind::Instance,
            Extension::VK_KHX_external_memory_capabilities => ExtensionKind::Instance,
            Extension::VK_KHX_external_memory => ExtensionKind::Device,
            Extension::VK_KHX_external_memory_win32 => ExtensionKind::Device,
            Extension::VK_KHX_external_memory_fd => ExtensionKind::Device,
            Extension::VK_KHX_win32_keyed_mutex => ExtensionKind::Device,
            Extension::VK_KHX_external_semaphore_capabilities => ExtensionKind::Instance,
            Extension::VK_KHX_external_semaphore => ExtensionKind::Device,
            Extension::VK_KHX_external_semaphore_win32 => ExtensionKind::Device,
            Extension::VK_KHX_external_semaphore_fd => ExtensionKind::Device,
            Extension::VK_KHR_push_descriptor => ExtensionKind::Device,
            Extension::VK_KHR_incremental_present => ExtensionKind::Device,
            Extension::VK_KHR_descriptor_update_template => ExtensionKind::Device,
            Extension::VK_NVX_device_generated_commands => ExtensionKind::Device,
            Extension::VK_NV_clip_space_w_scaling => ExtensionKind::Device,
            Extension::VK_EXT_direct_mode_display => ExtensionKind::Instance,
            Extension::VK_EXT_acquire_xlib_display => ExtensionKind::Instance,
            Extension::VK_EXT_display_surface_counter => ExtensionKind::Instance,
            Extension::VK_EXT_display_control => ExtensionKind::Device,
            Extension::VK_GOOGLE_display_timing => ExtensionKind::Device,
            Extension::VK_NV_sample_mask_override_coverage => ExtensionKind::Device,
            Extension::VK_NV_geometry_shader_passthrough => ExtensionKind::Device,
            Extension::VK_NV_viewport_array2 => ExtensionKind::Device,
            Extension::VK_NVX_multiview_per_view_attributes => ExtensionKind::Device,
            Extension::VK_NV_viewport_swizzle => ExtensionKind::Device,
            Extension::VK_EXT_discard_rectangles => ExtensionKind::Device,
            Extension::VK_EXT_swapchain_colorspace => ExtensionKind::Instance,
            Extension::VK_EXT_hdr_metadata => ExtensionKind::Device,
            Extension::VK_MVK_ios_surface => ExtensionKind::Instance,
            Extension::VK_MVK_macos_surface => ExtensionKind::Instance,
        }
    }

    /// The commands that the extension declares, each with the tier that
    /// resolves it. An extension may declare none.
    pub open spec fn spec_commands(&self) -> Seq<Command> {
        match self {
            Extension::VK_KHR_surface => seq![
                Command::instance("vkDestroySurfaceKHR"),
                Command::instance("vkGetPhysicalDeviceSurfaceSupportKHR"),
                Command::instance("vkGetPhysicalDeviceSurfaceCapabilitiesKHR"),
                Command::instance("vkGetPhysicalDeviceSurfaceFormatsKHR"),
                Command::instance("vkGetPhysicalDeviceSurfacePresentModesKHR"),
            ],
            Extension::VK_KHR_swapchain => seq![
                Command::device("vkCreateSwapchainKHR"),
                Command::device("vkDestroySwapchainKHR"),
                Command::device("vkGetSwapchainImagesKHR"),
                Command::device("vkAcquireNextImageKHR"),
                Command::device("vkQueuePresentKHR"),
            ],
            Extension::VK_KHR_display => seq![
                Command::instance("vkGetPhysicalDeviceDisplayPropertiesKHR"),
                Command::instance("vkGetPhysicalDeviceDisplayPlanePropertiesKHR"),
                Command::instance("vkGetDisplayPlaneSupportedDisplaysKHR"),
                Command::instance("vkGetDisplayModePropertiesKHR"),
                Command::instance("vkCreateDisplayModeKHR"),
                Command::instance("vkGetDisplayPlaneCapabilitiesKHR"),
                Command::instance("vkCreateDisplayPlaneSurfaceKHR"),
            ],
            Extension::VK_KHR_display_swapchain => seq![
                Command::device("vkCreateSharedSwapchainsKHR"),
            ],
            Extension::VK_KHR_xlib_surface => seq![
                Command::instance("vkCreateXlibSurfaceKHR"),
                Command::instance("vkGetPhysicalDeviceXlibPresentationSupportKHR"),
            ],
            Extension::VK_KHR_xcb_surface => seq![
                Command::instance("vkCreateXcbSurfaceKHR"),
                Command::instance("vkGetPhysicalDeviceXcbPresentationSupportKHR"),
            ],
            Extension::VK_KHR_wayland_surface => seq![
                Command::instance("vkCreateWaylandSurfaceKHR"),
                Command::instance("vkGetPhysicalDeviceWaylandPresentationSupportKHR"),
            ],
            Extension::VK_KHR_mir_surface => seq![
                Command::instance("vkCreateMirSurfaceKHR"),
                Command::instance("vkGetPhysicalDeviceMirPresentationSupportKHR"),
            ],
            Extension::VK_KHR_android_surface => seq![
                Command::instance("vkCreateAndroidSurfaceKHR"),
            ],
            Extension::VK_KHR_win32_surface => seq![
                Command::instance("vkCreateWin32SurfaceKHR"),
                Command::instance("vkGetPhysicalDeviceWin32PresentationSupportKHR"),
            ],
            Extension::VK_EXT_debug_report => seq![
                Command::instance("vkCreateDebugReportCallbackEXT"),
                Command::instance("vkDestroyDebugReportCallbackEXT"),
                Command::instance("vkDebugReportMessageEXT"),
            ],
            Extension::VK_NV_glsl_shader => Seq::empty(),
            Extension::VK_KHR_sampler_mirror_clamp_to_edge => Seq::empty(),
            Extension::VK_IMG_filter_cubic => Seq::empty(),
            Extension::VK_AMD_rasterization_order => Seq::empty(),
            Extension::VK_AMD_shader_trinary_minmax => Seq::empty(),
            Extension::VK_AMD_shader_explicit_vertex_parameter => Seq::empty(),
            Extension::VK_EXT_debug_marker => seq![
                Command::device("vkDebugMarkerSetObjectTagEXT"),
                Command::device("vkDebugMarkerSetObjectNameEXT"),
                Command::device("vkCmdDebugMarkerBeginEXT"),
                Command::device("vkCmdDebugMarkerEndEXT"),
                Command::device("vkCmdDebugMarkerInsertEXT"),
            ],
            Extension::VK_AMD_gcn_shader => Seq::empty(),
            Extension::VK_NV_dedicated_allocation => Seq::empty(),
            Extension::VK_AMD_draw_indirect_count => seq![
                Command::device("vkCmdDrawIndirectCountAMD"),
                Command::device("vkCmdDrawIndexedIndirectCountAMD"),
            ],
            Extension::VK_AMD_negative_viewport_height => Seq::empty(),
            Extension::VK_AMD_gpu_shader_half_float => Seq::empty(),
            Extension::VK_AMD_shader_ballot => Seq::empty(),
            Extension::VK_KHX_multiview => Seq::empty(),
            Extension::VK_IMG_format_pvrtc => Seq::empty(),
            Extension::VK_NV_external_memory_capabilities => seq![
                Command::instance("vkGetPhysicalDeviceExternalImageFormatPropertiesNV"),
            ],
            Extension::VK_NV_external_memory => Seq::empty(),
            Extension::VK_NV_external_memory_win32 => seq![
                Command::device("vkGetMemoryWin32HandleNV"),
            ],
            Extension::VK_NV_win32_keyed_mutex => Seq::empty(),
            Extension::VK_KHR_get_physical_device_properties2 => seq![
                Command::instance("vkGetPhysicalDeviceFeatures2KHR"),
                Command::instance("vkGetPhysicalDeviceProperties2KHR"),
                Command::instance("vkGetPhysicalDeviceFormatProperties2KHR"),
                Command::instance("vkGetPhysicalDeviceImageFormatProperties2KHR"),
                Command::instance("vkGetPhysicalDeviceQueueFamilyProperties2KHR"),
                Command::instance("vkGetPhysicalDeviceMemoryProperties2KHR"),
                Command::instance("vkGetPhysicalDeviceSparseImageFormatProperties2KHR"),
            ],
            Extension::VK_KHX_device_group => seq![
                Command::device("vkGetDeviceGroupPeerMemoryFeaturesKHX"),
                Command::device("vkBindBufferMemory2KHX"),
                Command::device("vkBindImageMemory2KHX"),
                Command::device("vkCmdSetDeviceMaskKHX"),
                Command::device("vkGetDeviceGroupPresentCapabilitiesKHX"),
                Command::device("vkGetDeviceGroupSurfacePresentModesKHX"),
                Command::device("vkAcquireNextImage2KHX"),
                Command::device("vkCmdDispatchBaseKHX"),
                Command::instance("vkGetPhysicalDevicePresentRectanglesKHX"),
            ],
            Extension::VK_EXT_validation_flags => Seq::empty(),
            Extension::VK_NN_vi_surface => seq![
                Command::instance("vkCreateViSurfaceNN"),
            ],
            Extension::VK_KHR_shader_draw_parameters => Seq::empty(),
            Extension::VK_EXT_shader_subgroup_ballot => Seq::empty(),
            Extension::VK_EXT_shader_subgroup_vote => Seq::empty(),
            Extension::VK_KHR_maintenance1 => seq![
                Command::device("vkTrimCommandPoolKHR"),
            ],
            Extension::VK_KHX_device_group_creation => seq![
                Command::instance("vkEnumeratePhysicalDeviceGroupsKHX"),
            ],
            Extension::VK_KHX_external_memory_capabilities => seq![
                Command::instance("vkGetPhysicalDeviceExternalBufferPropertiesKHX"),
            ],
            Extension::VK_KHX_external_memory => Seq::empty(),
            Extension::VK_KHX_external_memory_win32 => seq![
                Command::device("vkGetMemoryWin32HandleKHX"),
                Command::device("vkGetMemoryWin32HandlePropertiesKHX"),
            ],
            Extension::VK_KHX_external_memory_fd => seq![
                Command::device("vkGetMemoryFdKHX"),
                Command::device("vkGetMemoryFdPropertiesKHX"),
            ],
            Extension::VK_KHX_win32_keyed_mutex => Seq::empty(),
            Extension::VK_KHX_external_semaphore_capabilities => seq![
                Command::instance("vkGetPhysicalDeviceExternalSemaphorePropertiesKHX"),
            ],
            Extension::VK_KHX_external_semaphore => Seq::empty(),
            Extension::VK_KHX_external_semaphore_win32 => seq![
                Command::device("vkImportSemaphoreWin32HandleKHX"),
                Command::device("vkGetSemaphoreWin32HandleKHX"),
            ],
            Extension::VK_KHX_external_semaphore_fd => seq![
                Command::device("vkImportSemaphoreFdKHX"),
                Command::device("vkGetSemaphoreFdKHX"),
            ],
            Extension::VK_KHR_push_descriptor => seq![
                Command::device("vkCmdPushDescriptorSetKHR"),
            ],
            Extension::VK_KHR_incremental_present => Seq::empty(),
            Extension::VK_KHR_descriptor_update_template => seq![
                Command::device("vkCreateDescriptorUpdateTemplateKHR"),
                Command::device("vkDestroyDescriptorUpdateTemplateKHR"),
                Command::device("vkUpdateDescriptorSetWithTemplateKHR"),
                Command::device("vkCmdPushDescriptorSetWithTemplateKHR"),
            ],
            Extension::VK_NVX_device_generated_commands => seq![
                Command::device("vkCmdProcessCommandsNVX"),
                Command::device("vkCmdReserveSpaceForCommandsNVX"),
                Command::device("vkCreateIndirectCommandsLayoutNVX"),
                Command::device("vkDestroyIndirectCommandsLayoutNVX"),
                Command::device("vkCreateObjectTableNVX"),
                Command::device("vkDestroyObjectTableNVX"),
                Command::device("vkRegisterObjectsNVX"),
                Command::device("vkUnregisterObjectsNVX"),
                Command::instance("vkGetPhysicalDeviceGeneratedCommandsPropertiesNVX"),
            ],
            Extension::VK_NV_clip_space_w_scaling => seq![
                Command::device("vkCmdSetViewportWScalingNV"),
            ],
            Extension::VK_EXT_direct_mode_display => seq![
                Command::instance("vkReleaseDisplayEXT"),
            ],
            Extension::VK_EXT_acquire_xlib_display => seq![
                Command::instance("vkAcquireXlibDisplayEXT"),
                Command::instance("vkGetRandROutputDisplayEXT"),
            ],
            Extension::VK_EXT_display_surface_counter => seq![
                Command::instance("vkGetPhysicalDeviceSurfaceCapabilities2EXT"),
            ],
            Extension::VK_EXT_display_control => seq![
                Command::device("vkDisplayPowerControlEXT"),
                Command::device("vkRegisterDeviceEventEXT"),
                Command::device("vkRegisterDisplayEventEXT"),
                Command::device("vkGetSwapchainCounterEXT"),
            ],
            Extension::VK_GOOGLE_display_timing => seq![
                Command::device("vkGetRefreshCycleDurationGOOGLE"),
                Command::device("vkGetPastPresentationTimingGOOGLE"),
            ],
            Extension::VK_NV_sample_mask_override_coverage => Seq::empty(),
            Extension::VK_NV_geometry_shader_passthrough => Seq::empty(),
            Extension::VK_NV_viewport_array2 => Seq::empty(),
            Extension::VK_NVX_multiview_per_view_attributes => Seq::empty(),
            Extension::VK_NV_viewport_swizzle => Seq::empty(),
            Extension::VK_EXT_discard_rectangles => seq![
                Command::device("vkCmdSetDiscardRectangleEXT"),
            ],
            Extension::VK_EXT_swapchain_colorspace => Seq::empty(),
            Extension::VK_EXT_hdr_metadata => seq![
                Command::device("vkSetHdrMetadataEXT"),
            ],
            Extension::VK_MVK_ios_surface => seq![
                Command::instance("vkCreateIOSSurfaceMVK"),
            ],
            Extension::VK_MVK_macos_surface => seq![
                Command::instance("vkCreateMacOSSurfaceMVK"),
            ],
        }
    }

    #[verifier::when_used_as_spec(spec_kind)]
    pub fn kind(&self) -> (kind: ExtensionKind)
        ensures
            kind == self.spec_kind(),
    {
        match self {
            Extension::VK_KHR_surface => ExtensionKind::Instance,
            Extension::VK_KHR_swapchain => ExtensionKind::Device,
            Extension::VK_KHR_display => ExtensionKind::Instance,
            Extension::VK_KHR_display_swapchain => ExtensionKind::Device,
            Extension::VK_KHR_xlib_surface => ExtensionKind::Instance,
            Extension::VK_KHR_xcb_surface => ExtensionKind::Instance,
            Extension::VK_KHR_wayland_surface => ExtensionKind::Instance,
            Extension::VK_KHR_mir_surface => ExtensionKind::Instance,
            Extension::VK_KHR_android_surface => ExtensionKind::Instance,
            Extension::VK_KHR_win32_surface => ExtensionKind::Instance,
            Extension::VK_EXT_debug_report => ExtensionKind::Instance,
            Extension::VK_NV_glsl_shader => ExtensionKind::Device,
            Extension::VK_KHR_sampler_mirror_clamp_to_edge => ExtensionKind::Device,
            Extension::VK_IMG_filter_cubic => ExtensionKind::Device,
            Extension::VK_AMD_rasterization_order => ExtensionKind::Device,
            Extension::VK_AMD_shader_trinary_minmax => ExtensionKind::Device,
            Extension::VK_AMD_shader_explicit_vertex_parameter => ExtensionKind::Device,
            Extension::VK_EXT_debug_marker => ExtensionKind::Device,
            Extension::VK_AMD_gcn_shader => ExtensionKind::Device,
            Extension::VK_NV_dedicated_allocation => ExtensionKind::Device,
            Extension::VK_AMD_draw_indirect_count => ExtensionKind::Device,
            Extension::VK_AMD_negative_viewport_height => ExtensionKind::Device,
            Extension::VK_AMD_gpu_shader_half_float => ExtensionKind::Device,
            Extension::VK_AMD_shader_ballot => ExtensionKind::Device,
            Extension::VK_KHX_multiview => ExtensionKind::Device,
            Extension::VK_IMG_format_pvrtc => ExtensionKind::Device,
            Extension::VK_NV_external_memory_capabilities => ExtensionKind::Instance,
            Extension::VK_NV_external_memory => ExtensionKind::Device,
            Extension::VK_NV_external_memory_win32 => ExtensionKind::Device,
            Extension::VK_NV_win32_keyed_mutex => ExtensionKind::Device,
            Extension::VK_KHR_get_physical_device_properties2 => ExtensionKind::Instance,
            Extension::VK_KHX_device_group => ExtensionKind::Device,
            Extension::VK_EXT_validation_flags => ExtensionKind::Instance,
            Extension::VK_NN_vi_surface => ExtensionKind::Instance,
            Extension::VK_KHR_shader_draw_parameters => ExtensionKind::Device,
            Extension::VK_EXT_shader_subgroup_ballot => ExtensionKind::Device,
            Extension::VK_EXT_shader_subgroup_vote => ExtensionKind::Device,
            Extension::VK_KHR_maintenance1 => ExtensionKind::Device,
            Extension::VK_KHX_device_group_creation => ExtensionKind::Instance,
            Extension::VK_KHX_external_memory_capabilities => ExtensionKind::Instance,
            Extension::VK_KHX_external_memory => ExtensionKind::Device,
            Extension::VK_KHX_external_memory_win32 => ExtensionKind::Device,
            Extension::VK_KHX_external_memory_fd => ExtensionKind::Device,
            Extension::VK_KHX_win32_keyed_mutex => ExtensionKind::Device,
            Extension::VK_KHX_external_semaphore_capabilities => ExtensionKind::Instance,
            Extension::VK_KHX_external_semaphore => ExtensionKind::Device,
            Extension::VK_KHX_external_semaphore_win32 => ExtensionKind::Device,
            Extension::VK_KHX_external_semaphore_fd => ExtensionKind::Device,
            Extension::VK_KHR_push_descriptor => ExtensionKind::Device,
            Extension::VK_KHR_incremental_present => ExtensionKind::Device,
            Extension::VK_KHR_descriptor_update_template => ExtensionKind::Device,
            Extension::VK_NVX_device_generated_commands => ExtensionKind::Device,
            Extension::VK_NV_clip_space_w_scaling => ExtensionKind::Device,
            Extension::VK_EXT_direct_mode_display => ExtensionKind::Instance,
            Extension::VK_EXT_acquire_xlib_display => ExtensionKind::Instance,
            Extension::VK_EXT_display_surface_counter => ExtensionKind::Instance,
            Extension::VK_EXT_display_control => ExtensionKind::Device,
            Extension::VK_GOOGLE_display_timing => ExtensionKind::Device,
            Extension::VK_NV_sample_mask_override_coverage => ExtensionKind::Device,
            Extension::VK_NV_geometry_shader_passthrough => ExtensionKind::Device,
            Extension::VK_NV_viewport_array2 => ExtensionKind::Device,
            Extension::VK_NVX_multiview_per_view_attributes => ExtensionKind::Device,
            Extension::VK_NV_viewport_swizzle => ExtensionKind::Device,
            Extension::VK_EXT_discard_rectangles => ExtensionKind::Device,
            Extension::VK_EXT_swapchain_colorspace => ExtensionKind::Instance,
            Extension::VK_EXT_hdr_metadata => ExtensionKind::Device,
            Extension::VK_MVK_ios_surface => ExtensionKind::Instance,
            Extension::VK_MVK_macos_surface => ExtensionKind::Instance,
        }
    }

    pub fn commands(&self) -> (commands: Vec<Command>)
        ensures
            commands@ == self.spec_commands(),
    {
        match self {
            Extension::VK_KHR_surface => vec![
                Command::instance("vkDestroySurfaceKHR"),
                Command::instance("vkGetPhysicalDeviceSurfaceSupportKHR"),
                Command::instance("vkGetPhysicalDeviceSurfaceCapabilitiesKHR"),
                Command::instance("vkGetPhysicalDeviceSurfaceFormatsKHR"),
                Command::instance("vkGetPhysicalDeviceSurfacePresentModesKHR"),
            ],
            Extension::VK_KHR_swapchain => vec![
                Command::device("vkCreateSwapchainKHR"),
                Command::device("vkDestroySwapchainKHR"),
                Command::device("vkGetSwapchainImagesKHR"),
                Command::device("vkAcquireNextImageKHR"),
                Command::device("vkQueuePresentKHR"),
            ],
            Extension::VK_KHR_display => vec![
                Command::instance("vkGetPhysicalDeviceDisplayPropertiesKHR"),
                Command::instance("vkGetPhysicalDeviceDisplayPlanePropertiesKHR"),
                Command::instance("vkGetDisplayPlaneSupportedDisplaysKHR"),
                Command::instance("vkGetDisplayModePropertiesKHR"),
                Command::instance("vkCreateDisplayModeKHR"),
                Command::instance("vkGetDisplayPlaneCapabilitiesKHR"),
                Command::instance("vkCreateDisplayPlaneSurfaceKHR"),
            ],
            Extension::VK_KHR_display_swapchain => vec![
                Command::device("vkCreateSharedSwapchainsKHR"),
            ],
            Extension::VK_KHR_xlib_surface => vec![
                Command::instance("vkCreateXlibSurfaceKHR"),
                Command::instance("vkGetPhysicalDeviceXlibPresentationSupportKHR"),
            ],
            Extension::VK_KHR_xcb_surface => vec![
                Command::instance("vkCreateXcbSurfaceKHR"),
                Command::instance("vkGetPhysicalDeviceXcbPresentationSupportKHR"),
            ],
            Extension::VK_KHR_wayland_surface => vec![
                Command::instance("vkCreateWaylandSurfaceKHR"),
                Command::instance("vkGetPhysicalDeviceWaylandPresentationSupportKHR"),
            ],
            Extension::VK_KHR_mir_surface => vec![
                Command::instance("vkCreateMirSurfaceKHR"),
                Command::instance("vkGetPhysicalDeviceMirPresentationSupportKHR"),
            ],
            Extension::VK_KHR_android_surface => vec![
                Command::instance("vkCreateAndroidSurfaceKHR"),
            ],
            Extension::VK_KHR_win32_surface => vec![
                Command::instance("vkCreateWin32SurfaceKHR"),
                Command::instance("vkGetPhysicalDeviceWin32PresentationSupportKHR"),
            ],
            Extension::VK_EXT_debug_report => vec![
                Command::instance("vkCreateDebugReportCallbackEXT"),
                Command::instance("vkDestroyDebugReportCallbackEXT"),
                Command::instance("vkDebugReportMessageEXT"),
            ],
            Extension::VK_NV_glsl_shader => Vec::new(),
            Extension::VK_KHR_sampler_mirror_clamp_to_edge => Vec::new(),
            Extension::VK_IMG_filter_cubic => Vec::new(),
            Extension::VK_AMD_rasterization_order => Vec::new(),
            Extension::VK_AMD_shader_trinary_minmax => Vec::new(),
            Extension::VK_AMD_shader_explicit_vertex_parameter => Vec::new(),
            Extension::VK_EXT_debug_marker => vec![
                Command::device("vkDebugMarkerSetObjectTagEXT"),
                Command::device("vkDebugMarkerSetObjectNameEXT"),
                Command::device("vkCmdDebugMarkerBeginEXT"),
                Command::device("vkCmdDebugMarkerEndEXT"),
                Command::device("vkCmdDebugMarkerInsertEXT"),
            ],
            Extension::VK_AMD_gcn_shader => Vec::new(),
            Extension::VK_NV_dedicated_allocation => Vec::new(),
            Extension::VK_AMD_draw_indirect_count => vec![
                Command::device("vkCmdDrawIndirectCountAMD"),
                Command::device("vkCmdDrawIndexedIndirectCountAMD"),
            ],
            Extension::VK_AMD_negative_viewport_height => Vec::new(),
            Extension::VK_AMD_gpu_shader_half_float => Vec::new(),
            Extension::VK_AMD_shader_ballot => Vec::new(),
            Extension::VK_KHX_multiview => Vec::new(),
            Extension::VK_IMG_format_pvrtc => Vec::new(),
            Extension::VK_NV_external_memory_capabilities => vec![
                Command::instance("vkGetPhysicalDeviceExternalImageFormatPropertiesNV"),
            ],
            Extension::VK_NV_external_memory => Vec::new(),
            Extension::VK_NV_external_memory_win32 => vec![
                Command::device("vkGetMemoryWin32HandleNV"),
            ],
            Extension::VK_NV_win32_keyed_mutex => Vec::new(),
            Extension::VK_KHR_get_physical_device_properties2 => vec![
                Command::instance("vkGetPhysicalDeviceFeatures2KHR"),
                Command::instance("vkGetPhysicalDeviceProperties2KHR"),
                Command::instance("vkGetPhysicalDeviceFormatProperties2KHR"),
                Command::instance("vkGetPhysicalDeviceImageFormatProperties2KHR"),
                Command::instance("vkGetPhysicalDeviceQueueFamilyProperties2KHR"),
                Command::instance("vkGetPhysicalDeviceMemoryProperties2KHR"),
                Command::instance("vkGetPhysicalDeviceSparseImageFormatProperties2KHR"),
            ],
            Extension::VK_KHX_device_group => vec![
                Command::device("vkGetDeviceGroupPeerMemoryFeaturesKHX"),
                Command::device("vkBindBufferMemory2KHX"),
                Command::device("vkBindImageMemory2KHX"),
                Command::device("vkCmdSetDeviceMaskKHX"),
                Command::device("vkGetDeviceGroupPresentCapabilitiesKHX"),
                Command::device("vkGetDeviceGroupSurfacePresentModesKHX"),
                Command::device("vkAcquireNextImage2KHX"),
                Command::device("vkCmdDispatchBaseKHX"),
                Command::instance("vkGetPhysicalDevicePresentRectanglesKHX"),
            ],
            Extension::VK_EXT_validation_flags => Vec::new(),
            Extension::VK_NN_vi_surface => vec![
                Command::instance("vkCreateViSurfaceNN"),
            ],
            Extension::VK_KHR_shader_draw_parameters => Vec::new(),
            Extension::VK_EXT_shader_subgroup_ballot => Vec::new(),
            Extension::VK_EXT_shader_subgroup_vote => Vec::new(),
            Extension::VK_KHR_maintenance1 => vec![
                Command::device("vkTrimCommandPoolKHR"),
            ],
            Extension::VK_KHX_device_group_creation => vec![
                Command::instance("vkEnumeratePhysicalDeviceGroupsKHX"),
            ],
            Extension::VK_KHX_external_memory_capabilities => vec![
                Command::instance("vkGetPhysicalDeviceExternalBufferPropertiesKHX"),
            ],
            Extension::VK_KHX_external_memory => Vec::new(),
            Extension::VK_KHX_external_memory_win32 => vec![
                Command::device("vkGetMemoryWin32HandleKHX"),
                Command::device("vkGetMemoryWin32HandlePropertiesKHX"),
            ],
            Extension::VK_KHX_external_memory_fd => vec![
                Command::device("vkGetMemoryFdKHX"),
                Command::device("vkGetMemoryFdPropertiesKHX"),
            ],
            Extension::VK_KHX_win32_keyed_mutex => Vec::new(),
            Extension::VK_KHX_external_semaphore_capabilities => vec![
                Command::instance("vkGetPhysicalDeviceExternalSemaphorePropertiesKHX"),
            ],
            Extension::VK_KHX_external_semaphore => Vec::new(),
            Extension::VK_KHX_external_semaphore_win32 => vec![
                Command::device("vkImportSemaphoreWin32HandleKHX"),
                Command::device("vkGetSemaphoreWin32HandleKHX"),
            ],
            Extension::VK_KHX_external_semaphore_fd => vec![
                Command::device("vkImportSemaphoreFdKHX"),
                Command::device("vkGetSemaphoreFdKHX"),
            ],
            Extension::VK_KHR_push_descriptor => vec![
                Command::device("vkCmdPushDescriptorSetKHR"),
            ],
            Extension::VK_KHR_incremental_present => Vec::new(),
            Extension::VK_KHR_descriptor_update_template => vec![
                Command::device("vkCreateDescriptorUpdateTemplateKHR"),
                Command::device("vkDestroyDescriptorUpdateTemplateKHR"),
                Command::device("vkUpdateDescriptorSetWithTemplateKHR"),
                Command::device("vkCmdPushDescriptorSetWithTemplateKHR"),
            ],
            Extension::VK_NVX_device_generated_commands => vec![
                Command::device("vkCmdProcessCommandsNVX"),
                Command::device("vkCmdReserveSpaceForCommandsNVX"),
                Command::device("vkCreateIndirectCommandsLayoutNVX"),
                Command::device("vkDestroyIndirectCommandsLayoutNVX"),
                Command::device("vkCreateObjectTableNVX"),
                Command::device("vkDestroyObjectTableNVX"),
                Command::device("vkRegisterObjectsNVX"),
                Command::device("vkUnregisterObjectsNVX"),
                Command::instance("vkGetPhysicalDeviceGeneratedCommandsPropertiesNVX"),
            ],
            Extension::VK_NV_clip_space_w_scaling => vec![
                Command::device("vkCmdSetViewportWScalingNV"),
            ],
            Extension::VK_EXT_direct_mode_display => vec![
                Command::instance("vkReleaseDisplayEXT"),
            ],
            Extension::VK_EXT_acquire_xlib_display => vec![
                Command::instance("vkAcquireXlibDisplayEXT"),
                Command::instance("vkGetRandROutputDisplayEXT"),
            ],
            Extension::VK_EXT_display_surface_counter => vec![
                Command::instance("vkGetPhysicalDeviceSurfaceCapabilities2EXT"),
            ],
            Extension::VK_EXT_display_control => vec![
                Command::device("vkDisplayPowerControlEXT"),
                Command::device("vkRegisterDeviceEventEXT"),
                Command::device("vkRegisterDisplayEventEXT"),
                Command::device("vkGetSwapchainCounterEXT"),
            ],
            Extension::VK_GOOGLE_display_timing => vec![
                Command::device("vkGetRefreshCycleDurationGOOGLE"),
                Command::device("vkGetPastPresentationTimingGOOGLE"),
            ],
            Extension::VK_NV_sample_mask_override_coverage => Vec::new(),
            Extension::VK_NV_geometry_shader_passthrough => Vec::new(),
            Extension::VK_NV_viewport_array2 => Vec::new(),
            Extension::VK_NVX_multiview_per_view_attributes => Vec::new(),
            Extension::VK_NV_viewport_swizzle => Vec::new(),
            Extension::VK_EXT_discard_rectangles => vec![
                Command::device("vkCmdSetDiscardRectangleEXT"),
            ],
            Extension::VK_EXT_swapchain_colorspace => Vec::new(),
            Extension::VK_EXT_hdr_metadata => vec![
                Command::device("vkSetHdrMetadataEXT"),
            ],
            Extension::VK_MVK_ios_surface => vec![
                Command::instance("vkCreateIOSSurfaceMVK"),
            ],
            Extension::VK_MVK_macos_surface => vec![
                Command::instance("vkCreateMacOSSurfaceMVK"),
            ],
        }
    }
}

/// The commands of one extension, resolved.
#[derive(Debug)]
pub struct ExtensionDispatchTable {
    extension: Extension,
    table: DispatchTable,
}

impl ExtensionDispatchTable {
    #[verifier::type_invariant]
    spec fn holds_its_commands(self) -> bool {
        self.table.commands() == self.extension.spec_commands()
    }

    pub closed spec fn spec_extension(&self) -> Extension {
        self.extension
    }

    pub closed spec fn spec_table(&self) -> &DispatchTable {
        &self.table
    }

    /// What making the table of `extension` in `context` may give: see `load_outcome`.
    pub open spec fn outcome<F: Fn(ProcAddrCall) -> usize>(
        extension: Extension,
        context: ResolutionContext,
        native: &F,
        loaded: Result<ExtensionDispatchTable, LoadError>,
    ) -> bool {
        &&& loaded matches Ok(table) ==> table.spec_extension() == extension
        &&& load_outcome(
            native,
            context,
            extension.spec_commands(),
            match loaded {
                Ok(table) => Ok(*table.spec_table()),
                Err(error) => Err(error),
            },
        )
    }

    /// Resolves the commands of `extension` with what an instance offers:
    /// each command by the resolver of its own tier. A command of the device
    /// tier cannot be resolved here, and counts as missing.
    pub fn for_instance<L, F: Fn(ProcAddrCall) -> usize>(
        extension: Extension,
        vulkan_entry: &VulkanEntry<L>,
        instance: VkInstance,
        native: &F,
    ) -> (loaded: Result<ExtensionDispatchTable, LoadError>)
        requires
            all_callable(native, instance_context(vulkan_entry, instance), extension.spec_commands()),
        ensures
            ExtensionDispatchTable::outcome(
                extension,
                instance_context(vulkan_entry, instance),
                native,
                loaded,
            ),
            extension.spec_commands().len() == 0 ==> loaded is Ok,
    {
        let context = ResolutionContext::instance(vulkan_entry.bootstrap(), instance);
        ExtensionDispatchTable::load(extension, &context, native)
    }

    /// Resolves the commands of `extension` with what a device offers: each
    /// command by the resolver of its own tier, the bootstrap resolver on
    /// behalf of `instance` or the device resolver of `instance_table` on
    /// behalf of `device`.
    pub fn for_device<L, F: Fn(ProcAddrCall) -> usize>(
        extension: Extension,
        vulkan_entry: &VulkanEntry<L>,
        instance: VkInstance,
        instance_table: &InstanceDispatchTable,
        device: VkDevice,
        native: &F,
    ) -> (loaded: Result<ExtensionDispatchTable, LoadError>)
        requires
            all_callable(
                native,
                device_extension_context(vulkan_entry, instance, instance_table, device),
                extension.spec_commands(),
            ),
        ensures
            ExtensionDispatchTable::outcome(
                extension,
                device_extension_context(vulkan_entry, instance, instance_table, device),
                native,
                loaded,
            ),
            extension.spec_commands().len() == 0 ==> loaded is Ok,
    {
        let context = ResolutionContext::device_extension(
            vulkan_entry.bootstrap(),
            instance,
            instance_table.device_resolver(),
            device,
        );
        ExtensionDispatchTable::load(extension, &context, native)
    }

    /// Resolves the commands of `extension` in a context made by hand.
    pub fn load<F: Fn(ProcAddrCall) -> usize>(
        extension: Extension,
        context: &ResolutionContext,
        native: &F,
    ) -> (loaded: Result<ExtensionDispatchTable, LoadError>)
        requires
            all_callable(native, *context, extension.spec_commands()),
        ensures
            ExtensionDispatchTable::outcome(extension, *context, native, loaded),
            extension.spec_commands().len() == 0 ==> loaded is Ok,
    {
        match DispatchTable::load(context, extension.commands(), native) {
            Ok(table) => Ok(ExtensionDispatchTable { extension, table }),
            Err(error) => Err(error),
        }
    }

    #[verifier::when_used_as_spec(spec_extension)]
    pub fn extension(&self) -> (extension: Extension)
        ensures
            extension == self.spec_extension(),
    {
        self.extension
    }

    #[verifier::when_used_as_spec(spec_table)]
    pub fn table(&self) -> (table: &DispatchTable)
        ensures
            table == self.spec_table(),
            table.commands() == self.spec_extension().spec_commands(),
    {
        proof {
            use_type_invariant(self);
        }
        &self.table
    }
}

/// The commands of an extension fit its kind: an instance extension declares
/// only commands of the instance tier, and no extension declares one of the
/// global tier.
pub proof fn lemma_extension_commands_fit_kind(extension: Extension, index: int)
    requires
        0 <= index < extension.spec_commands().len(),
    ensures
        extension.spec_commands()[index].tier != Tier::Global,
        extension.spec_kind() == ExtensionKind::Instance ==> extension.spec_commands()[index].tier
            == Tier::Instance,
{
}

/// In the context that its kind of table is made in, every command of an
/// extension can be asked for: such a table fails only where the native
/// resolver answers the null address.
pub proof fn lemma_extension_commands_can_be_asked<L>(
    extension: Extension,
    vulkan_entry: &VulkanEntry<L>,
    instance: VkInstance,
    instance_table: &InstanceDispatchTable,
    device: VkDevice,
    index: int,
)
    requires
        0 <= index < extension.spec_commands().len(),
    ensures
        extension.spec_kind() == ExtensionKind::Instance ==> instance_context(
            vulkan_entry,
            instance,
        ).call_for(extension.spec_commands()[index]) is Some,
        device_extension_context(vulkan_entry, instance, instance_table, device).call_for(
            extension.spec_commands()[index],
        ) is Some,
{
    lemma_extension_commands_fit_kind(extension, index);
}

} // verus!
