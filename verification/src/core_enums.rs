use vstd::prelude::*;

verus! {

#[derive(Clone, Copy, Debug, PartialEq, Eq, Hash)]
pub enum VkPipelineCacheHeaderVersion {
    VK_PIPELINE_CACHE_HEADER_VERSION_ONE,
}

impl VkPipelineCacheHeaderVersion {
    /// The number that stands for the variant in the native interface.
    pub open spec fn spec_value(&self) -> i32 {
        match self {
            VkPipelineCacheHeaderVersion::VK_PIPELINE_CACHE_HEADER_VERSION_ONE => 1i32,
        }
    }

    #[verifier::when_used_as_spec(spec_value)]
    pub fn value(&self) -> (value: i32)
        ensures
            value == self.spec_value(),
    {
        match self {
            VkPipelineCacheHeaderVersion::VK_PIPELINE_CACHE_HEADER_VERSION_ONE => 1,
        }
    }
}

#[derive(Clone, Copy, Debug, PartialEq, Eq, Hash)]
pub enum VkResult {
    VK_SUCCESS,
    VK_NOT_READY,
    VK_TIMEOUT,
    VK_EVENT_SET,
    VK_EVENT_RESET,
    VK_INCOMPLETE,
    VK_ERROR_OUT_OF_HOST_MEMORY,
    VK_ERROR_OUT_OF_DEVICE_MEMORY,
    VK_ERROR_INITIALIZATION_FAILED,
    VK_ERROR_DEVICE_LOST,
    VK_ERROR_MEMORY_MAP_FAILED,
    VK_ERROR_LAYER_NOT_PRESENT,
    VK_ERROR_EXTENSION_NOT_PRESENT,
    VK_ERROR_FEATURE_NOT_PRESENT,
    VK_ERROR_INCOMPATIBLE_DRIVER,
    VK_ERROR_TOO_MANY_OBJECTS,
    VK_ERROR_FORMAT_NOT_SUPPORTED,
    VK_ERROR_FRAGMENTED_POOL,
    VK_ERROR_SURFACE_LOST_KHR,
    VK_ERROR_NATIVE_WINDOW_IN_USE_KHR,
    VK_SUBOPTIMAL_KHR,
    VK_ERROR_OUT_OF_DATE_KHR,
    VK_ERROR_INCOMPATIBLE_DISPLAY_KHR,
    VK_ERROR_VALIDATION_FAILED_EXT,
    VK_ERROR_INVALID_SHADER_NV,
    VK_ERROR_OUT_OF_POOL_MEMORY_KHR,
    VK_ERROR_INVALID_EXTERNAL_HANDLE_KHX,
}

impl VkResult {
    /// The number that stands for the variant in the native interface.
    pub open spec fn spec_value(&self) -> i32 {
        match self {
            VkResult::VK_SUCCESS => 0i32,
            VkResult::VK_NOT_READY => 1i32,
            VkResult::VK_TIMEOUT => 2i32,
            VkResult::VK_EVENT_SET => 3i32,
            VkResult::VK_EVENT_RESET => 4i32,
            VkResult::VK_INCOMPLETE => 5i32,
            VkResult::VK_ERROR_OUT_OF_HOST_MEMORY => -1i32,
            VkResult::VK_ERROR_OUT_OF_DEVICE_MEMORY => -2i32,
            VkResult::VK_ERROR_INITIALIZATION_FAILED => -3i32,
            VkResult::VK_ERROR_DEVICE_LOST => -4i32,
            VkResult::VK_ERROR_MEMORY_MAP_FAILED => -5i32,
            VkResult::VK_ERROR_LAYER_NOT_PRESENT => -6i32,
            VkResult::VK_ERROR_EXTENSION_NOT_PRESENT => -7i32,
            VkResult::VK_ERROR_FEATURE_NOT_PRESENT => -8i32,
            VkResult::VK_ERROR_INCOMPATIBLE_DRIVER => -9i32,
            VkResult::VK_ERROR_TOO_MANY_OBJECTS => -10i32,
            VkResult::VK_ERROR_FORMAT_NOT_SUPPORTED => -11i32,
            VkResult::VK_ERROR_FRAGMENTED_POOL => -12i32,
            VkResult::VK_ERROR_SURFACE_LOST_KHR => -1000000000i32,
            VkResult::VK_ERROR_NATIVE_WINDOW_IN_USE_KHR => -1000000001i32,
            VkResult::VK_SUBOPTIMAL_KHR => 1000001003i32,
            VkResult::VK_ERROR_OUT_OF_DATE_KHR => -1000001004i32,
            VkResult::VK_ERROR_INCOMPATIBLE_DISPLAY_KHR => -1000003001i32,
            VkResult::VK_ERROR_VALIDATION_FAILED_EXT => -1000011001i32,
            VkResult::VK_ERROR_INVALID_SHADER_NV => -1000012000i32,
            VkResult::VK_ERROR_OUT_OF_POOL_MEMORY_KHR => -1000069000i32,
            VkResult::VK_ERROR_INVALID_EXTERNAL_HANDLE_KHX => -1000072003i32,
        }
    }

    #[verifier::when_used_as_spec(spec_value)]
    pub fn value(&self) -> (value: i32)
        ensures
            value == self.spec_value(),
    {
        match self {
            VkResult::VK_SUCCESS => 0,
            VkResult::VK_NOT_READY => 1,
            VkResult::VK_TIMEOUT => 2,
            VkResult::VK_EVENT_SET => 3,
            VkResult::VK_EVENT_RESET => 4,
            VkResult::VK_INCOMPLETE => 5,
            VkResult::VK_ERROR_OUT_OF_HOST_MEMORY => -1,
            VkResult::VK_ERROR_OUT_OF_DEVICE_MEMORY => -2,
            VkResult::VK_ERROR_INITIALIZATION_FAILED => -3,
            VkResult::VK_ERROR_DEVICE_LOST => -4,
            VkResult::VK_ERROR_MEMORY_MAP_FAILED => -5,
            VkResult::VK_ERROR_LAYER_NOT_PRESENT => -6,
            VkResult::VK_ERROR_EXTENSION_NOT_PRESENT => -7,
            VkResult::VK_ERROR_FEATURE_NOT_PRESENT => -8,
            VkResult::VK_ERROR_INCOMPATIBLE_DRIVER => -9,
            VkResult::VK_ERROR_TOO_MANY_OBJECTS => -10,
            VkResult::VK_ERROR_FORMAT_NOT_SUPPORTED => -11,
            VkResult::VK_ERROR_FRAGMENTED_POOL => -12,
            VkResult::VK_ERROR_SURFACE_LOST_KHR => -1000000000,
            VkResult::VK_ERROR_NATIVE_WINDOW_IN_USE_KHR => -1000000001,
            VkResult::VK_SUBOPTIMAL_KHR => 1000001003,
            VkResult::VK_ERROR_OUT_OF_DATE_KHR => -1000001004,
            VkResult::VK_ERROR_INCOMPATIBLE_DISPLAY_KHR => -1000003001,
            VkResult::VK_ERROR_VALIDATION_FAILED_EXT => -1000011001,
            VkResult::VK_ERROR_INVALID_SHADER_NV => -1000012000,
            VkResult::VK_ERROR_OUT_OF_POOL_MEMORY_KHR => -1000069000,
            VkResult::VK_ERROR_INVALID_EXTERNAL_HANDLE_KHX => -1000072003,
        }
    }
}

#[derive(Clone, Copy, Debug, PartialEq, Eq, Hash)]
pub enum VkStructureType {
    VK_STRUCTURE_TYPE_APPLICATION_INFO,
    VK_STRUCTURE_TYPE_INSTANCE_CREATE_INFO,
    VK_STRUCTURE_TYPE_DEVICE_QUEUE_CREATE_INFO,
    VK_STRUCTURE_TYPE_DEVICE_CREATE_INFO,
    VK_STRUCTURE_TYPE_SUBMIT_INFO,
    VK_STRUCTURE_TYPE_MEMORY_ALLOCATE_INFO,
    VK_STRUCTURE_TYPE_MAPPED_MEMORY_RANGE,
    VK_STRUCTURE_TYPE_BIND_SPARSE_INFO,
    VK_STRUCTURE_TYPE_FENCE_CREATE_INFO,
    VK_STRUCTURE_TYPE_SEMAPHORE_CREATE_INFO,
    VK_STRUCTURE_TYPE_EVENT_CREATE_INFO,
    VK_STRUCTURE_TYPE_QUERY_POOL_CREATE_INFO,
    VK_STRUCTURE_TYPE_BUFFER_CREATE_INFO,
    VK_STRUCTURE_TYPE_BUFFER_VIEW_CREATE_INFO,
    VK_STRUCTURE_TYPE_IMAGE_CREATE_INFO,
    VK_STRUCTURE_TYPE_IMAGE_VIEW_CREATE_INFO,
    VK_STRUCTURE_TYPE_SHADER_MODULE_CREATE_INFO,
    VK_STRUCTURE_TYPE_PIPELINE_CACHE_CREATE_INFO,
    VK_STRUCTURE_TYPE_PIPELINE_SHADER_STAGE_CREATE_INFO,
    VK_STRUCTURE_TYPE_PIPELINE_VERTEX_INPUT_STATE_CREATE_INFO,
    VK_STRUCTURE_TYPE_PIPELINE_INPUT_ASSEMBLY_STATE_CREATE_INFO,
    VK_STRUCTURE_TYPE_PIPELINE_TESSELLATION_STATE_CREATE_INFO,
    VK_STRUCTURE_TYPE_PIPELINE_VIEWPORT_STATE_CREATE_INFO,
    VK_STRUCTURE_TYPE_PIPELINE_RASTERIZATION_STATE_CREATE_INFO,
    VK_STRUCTURE_TYPE_PIPELINE_MULTISAMPLE_STATE_CREATE_INFO,
    VK_STRUCTURE_TYPE_PIPELINE_DEPTH_STENCIL_STATE_CREATE_INFO,
    VK_STRUCTURE_TYPE_PIPELINE_COLOR_BLEND_STATE_CREATE_INFO,
    VK_STRUCTURE_TYPE_PIPELINE_DYNAMIC_STATE_CREATE_INFO,
    VK_STRUCTURE_TYPE_GRAPHICS_PIPELINE_CREATE_INFO,
    VK_STRUCTURE_TYPE_COMPUTE_PIPELINE_CREATE_INFO,
    VK_STRUCTURE_TYPE_PIPELINE_LAYOUT_CREATE_INFO,
    VK_STRUCTURE_TYPE_SAMPLER_CREATE_INFO,
    VK_STRUCTURE_TYPE_DESCRIPTOR_SET_LAYOUT_CREATE_INFO,
    VK_STRUCTURE_TYPE_DESCRIPTOR_POOL_CREATE_INFO,
    VK_STRUCTURE_TYPE_DESCRIPTOR_SET_ALLOCATE_INFO,
    VK_STRUCTURE_TYPE_WRITE_DESCRIPTOR_SET,
    VK_STRUCTURE_TYPE_COPY_DESCRIPTOR_SET,
    VK_STRUCTURE_TYPE_FRAMEBUFFER_CREATE_INFO,
    VK_STRUCTURE_TYPE_RENDER_PASS_CREATE_INFO,
    VK_STRUCTURE_TYPE_COMMAND_POOL_CREATE_INFO,
    VK_STRUCTURE_TYPE_COMMAND_BUFFER_ALLOCATE_INFO,
    VK_STRUCTURE_TYPE_COMMAND_BUFFER_INHERITANCE_INFO,
    VK_STRUCTURE_TYPE_COMMAND_BUFFER_BEGIN_INFO,
    VK_STRUCTURE_TYPE_RENDER_PASS_BEGIN_INFO,
    VK_STRUCTURE_TYPE_BUFFER_MEMORY_BARRIER,
    VK_STRUCTURE_TYPE_IMAGE_MEMORY_BARRIER,
    VK_STRUCTURE_TYPE_MEMORY_BARRIER,
    VK_STRUCTURE_TYPE_LOADER_INSTANCE_CREATE_INFO,
    VK_STRUCTURE_TYPE_LOADER_DEVICE_CREATE_INFO,
    VK_STRUCTURE_TYPE_SWAPCHAIN_CREATE_INFO_KHR,
    VK_STRUCTURE_TYPE_PRESENT_INFO_KHR,
    VK_STRUCTURE_TYPE_DISPLAY_MODE_CREATE_INFO_KHR,
    VK_STRUCTURE_TYPE_DISPLAY_SURFACE_CREATE_INFO_KHR,
    VK_STRUCTURE_TYPE_DISPLAY_PRESENT_INFO_KHR,
    VK_STRUCTURE_TYPE_XLIB_SURFACE_CREATE_INFO_KHR,
    VK_STRUCTURE_TYPE_XCB_SURFACE_CREATE_INFO_KHR,
    VK_STRUCTURE_TYPE_WAYLAND_SURFACE_CREATE_INFO_KHR,
    VK_STRUCTURE_TYPE_MIR_SURFACE_CREATE_INFO_KHR,
    VK_STRUCTURE_TYPE_ANDROID_SURFACE_CREATE_INFO_KHR,
    VK_STRUCTURE_TYPE_WIN32_SURFACE_CREATE_INFO_KHR,
    VK_STRUCTURE_TYPE_DEBUG_REPORT_CALLBACK_CREATE_INFO_EXT,
    VK_STRUCTURE_TYPE_PIPELINE_RASTERIZATION_STATE_RASTERIZATION_ORDER_AMD,
    VK_STRUCTURE_TYPE_DEBUG_MARKER_OBJECT_NAME_INFO_EXT,
    VK_STRUCTURE_TYPE_DEBUG_MARKER_OBJECT_TAG_INFO_EXT,
    VK_STRUCTURE_TYPE_DEBUG_MARKER_MARKER_INFO_EXT,
    VK_STRUCTURE_TYPE_DEDICATED_ALLOCATION_IMAGE_CREATE_INFO_NV,
    VK_STRUCTURE_TYPE_DEDICATED_ALLOCATION_BUFFER_CREATE_INFO_NV,
    VK_STRUCTURE_TYPE_DEDICATED_ALLOCATION_MEMORY_ALLOCATE_INFO_NV,
    VK_STRUCTURE_TYPE_RENDER_PASS_MULTIVIEW_CREATE_INFO_KHX,
    VK_STRUCTURE_TYPE_PHYSICAL_DEVICE_MULTIVIEW_FEATURES_KHX,
    VK_STRUCTURE_TYPE_PHYSICAL_DEVICE_MULTIVIEW_PROPERTIES_KHX,
    VK_STRUCTURE_TYPE_EXTERNAL_MEMORY_IMAGE_CREATE_INFO_NV,
    VK_STRUCTURE_TYPE_EXPORT_MEMORY_ALLOCATE_INFO_NV,
    VK_STRUCTURE_TYPE_IMPORT_MEMORY_WIN32_HANDLE_INFO_NV,
    VK_STRUCTURE_TYPE_EXPORT_MEMORY_WIN32_HANDLE_INFO_NV,
    VK_STRUCTURE_TYPE_WIN32_KEYED_MUTEX_ACQUIRE_RELEASE_INFO_NV,
    VK_STRUCTURE_TYPE_PHYSICAL_DEVICE_FEATURES_2_KHR,
    VK_STRUCTURE_TYPE_PHYSICAL_DEVICE_PROPERTIES_2_KHR,
    VK_STRUCTURE_TYPE_FORMAT_PROPERTIES_2_KHR,
    VK_STRUCTURE_TYPE_IMAGE_FORMAT_PROPERTIES_2_KHR,
    VK_STRUCTURE_TYPE_PHYSICAL_DEVICE_IMAGE_FORMAT_INFO_2_KHR,
    VK_STRUCTURE_TYPE_QUEUE_FAMILY_PROPERTIES_2_KHR,
    VK_STRUCTURE_TYPE_PHYSICAL_DEVICE_MEMORY_PROPERTIES_2_KHR,
    VK_STRUCTURE_TYPE_SPARSE_IMAGE_FORMAT_PROPERTIES_2_KHR,
    VK_STRUCTURE_TYPE_PHYSICAL_DEVICE_SPARSE_IMAGE_FORMAT_INFO_2_KHR,
    VK_STRUCTURE_TYPE_MEMORY_ALLOCATE_FLAGS_INFO_KHX,
    VK_STRUCTURE_TYPE_BIND_BUFFER_MEMORY_INFO_KHX,
    VK_STRUCTURE_TYPE_BIND_IMAGE_MEMORY_INFO_KHX,
    VK_STRUCTURE_TYPE_DEVICE_GROUP_RENDER_PASS_BEGIN_INFO_KHX,
    VK_STRUCTURE_TYPE_DEVICE_GROUP_COMMAND_BUFFER_BEGIN_INFO_KHX,
    VK_STRUCTURE_TYPE_DEVICE_GROUP_SUBMIT_INFO_KHX,
    VK_STRUCTURE_TYPE_DEVICE_GROUP_BIND_SPARSE_INFO_KHX,
    VK_STRUCTURE_TYPE_DEVICE_GROUP_PRESENT_CAPABILITIES_KHX,
    VK_STRUCTURE_TYPE_IMAGE_SWAPCHAIN_CREATE_INFO_KHX,
    VK_STRUCTURE_TYPE_BIND_IMAGE_MEMORY_SWAPCHAIN_INFO_KHX,
    VK_STRUCTURE_TYPE_ACQUIRE_NEXT_IMAGE_INFO_KHX,
    VK_STRUCTURE_TYPE_DEVICE_GROUP_PRESENT_INFO_KHX,
    VK_STRUCTURE_TYPE_DEVICE_GROUP_SWAPCHAIN_CREATE_INFO_KHX,
    VK_STRUCTURE_TYPE_VALIDATION_FLAGS_EXT,
    VK_STRUCTURE_TYPE_VI_SURFACE_CREATE_INFO_NN,
    VK_STRUCTURE_TYPE_PHYSICAL_DEVICE_GROUP_PROPERTIES_KHX,
    VK_STRUCTURE_TYPE_DEVICE_GROUP_DEVICE_CREATE_INFO_KHX,
    VK_STRUCTURE_TYPE_PHYSICAL_DEVICE_EXTERNAL_IMAGE_FORMAT_INFO_KHX,
    VK_STRUCTURE_TYPE_EXTERNAL_IMAGE_FORMAT_PROPERTIES_KHX,
    VK_STRUCTURE_TYPE_PHYSICAL_DEVICE_EXTERNAL_BUFFER_INFO_KHX,
    VK_STRUCTURE_TYPE_EXTERNAL_BUFFER_PROPERTIES_KHX,
    VK_STRUCTURE_TYPE_PHYSICAL_DEVICE_ID_PROPERTIES_KHX,
    VK_STRUCTURE_TYPE_EXTERNAL_MEMORY_BUFFER_CREATE_INFO_KHX,
    VK_STRUCTURE_TYPE_EXTERNAL_MEMORY_IMAGE_CREATE_INFO_KHX,
    VK_STRUCTURE_TYPE_EXPORT_MEMORY_ALLOCATE_INFO_KHX,
    VK_STRUCTURE_TYPE_IMPORT_MEMORY_WIN32_HANDLE_INFO_KHX,
    VK_STRUCTURE_TYPE_EXPORT_MEMORY_WIN32_HANDLE_INFO_KHX,
    VK_STRUCTURE_TYPE_MEMORY_WIN32_HANDLE_PROPERTIES_KHX,
    VK_STRUCTURE_TYPE_IMPORT_MEMORY_FD_INFO_KHX,
    VK_STRUCTURE_TYPE_MEMORY_FD_PROPERTIES_KHX,
    VK_STRUCTURE_TYPE_WIN32_KEYED_MUTEX_ACQUIRE_RELEASE_INFO_KHX,
    VK_STRUCTURE_TYPE_PHYSICAL_DEVICE_EXTERNAL_SEMAPHORE_INFO_KHX,
    VK_STRUCTURE_TYPE_EXTERNAL_SEMAPHORE_PROPERTIES_KHX,
    VK_STRUCTURE_TYPE_EXPORT_SEMAPHORE_CREATE_INFO_KHX,
    VK_STRUCTURE_TYPE_IMPORT_SEMAPHORE_WIN32_HANDLE_INFO_KHX,
    VK_STRUCTURE_TYPE_EXPORT_SEMAPHORE_WIN32_HANDLE_INFO_KHX,
    VK_STRUCTURE_TYPE_D3D12_FENCE_SUBMIT_INFO_KHX,
    VK_STRUCTURE_TYPE_IMPORT_SEMAPHORE_FD_INFO_KHX,
    VK_STRUCTURE_TYPE_PHYSICAL_DEVICE_PUSH_DESCRIPTOR_PROPERTIES_KHR,
    VK_STRUCTURE_TYPE_PRESENT_REGIONS_KHR,
    VK_STRUCTURE_TYPE_DESCRIPTOR_UPDATE_TEMPLATE_CREATE_INFO_KHR,
    VK_STRUCTURE_TYPE_OBJECT_TABLE_CREATE_INFO_NVX,
    VK_STRUCTURE_TYPE_INDIRECT_COMMANDS_LAYOUT_CREATE_INFO_NVX,
    VK_STRUCTURE_TYPE_CMD_PROCESS_COMMANDS_INFO_NVX,
    VK_STRUCTURE_TYPE_CMD_RESERVE_SPACE_FOR_COMMANDS_INFO_NVX,
    VK_STRUCTURE_TYPE_DEVICE_GENERATED_COMMANDS_LIMITS_NVX,
    VK_STRUCTURE_TYPE_DEVICE_GENERATED_COMMANDS_FEATURES_NVX,
    VK_STRUCTURE_TYPE_PIPELINE_VIEWPORT_W_SCALING_STATE_CREATE_INFO_NV,
    VK_STRUCTURE_TYPE_SURFACE_CAPABILITIES2_EXT,
    VK_STRUCTURE_TYPE_DISPLAY_POWER_INFO_EXT,
    VK_STRUCTURE_TYPE_DEVICE_EVENT_INFO_EXT,
    VK_STRUCTURE_TYPE_DISPLAY_EVENT_INFO_EXT,
    VK_STRUCTURE_TYPE_SWAPCHAIN_COUNTER_CREATE_INFO_EXT,
    VK_STRUCTURE_TYPE_PRESENT_TIMES_INFO_GOOGLE,
    VK_STRUCTURE_TYPE_PHYSICAL_DEVICE_MULTIVIEW_PER_VIEW_ATTRIBUTES_PROPERTIES_NVX,
    VK_STRUCTURE_TYPE_PIPELINE_VIEWPORT_SWIZZLE_STATE_CREATE_INFO_NV,
    VK_STRUCTURE_TYPE_PHYSICAL_DEVICE_DISCARD_RECTANGLE_PROPERTIES_EXT,
    VK_STRUCTURE_TYPE_PIPELINE_DISCARD_RECTANGLE_STATE_CREATE_INFO_EXT,
    VK_STRUCTURE_TYPE_HDR_METADATA_EXT,
    VK_STRUCTURE_TYPE_IOS_SURFACE_CREATE_INFO_MVK,
    VK_STRUCTURE_TYPE_MACOS_SURFACE_CREATE_INFO_MVK,
}

impl VkStructureType {
    /// The number that stands for the variant in the native interface.
    pub open spec fn spec_value(&self) -> i32 {
        match self {
            VkStructureType::VK_STRUCTURE_TYPE_APPLICATION_INFO => 0i32,
            VkStructureType::VK_STRUCTURE_TYPE_INSTANCE_CREATE_INFO => 1i32,
            VkStructureType::VK_STRUCTURE_TYPE_DEVICE_QUEUE_CREATE_INFO => 2i32,
            VkStructureType::VK_STRUCTURE_TYPE_DEVICE_CREATE_INFO => 3i32,
            VkStructureType::VK_STRUCTURE_TYPE_SUBMIT_INFO => 4i32,
            VkStructureType::VK_STRUCTURE_TYPE_MEMORY_ALLOCATE_INFO => 5i32,
            VkStructureType::VK_STRUCTURE_TYPE_MAPPED_MEMORY_RANGE => 6i32,
            VkStructureType::VK_STRUCTURE_TYPE_BIND_SPARSE_INFO => 7i32,
            VkStructureType::VK_STRUCTURE_TYPE_FENCE_CREATE_INFO => 8i32,
            VkStructureType::VK_STRUCTURE_TYPE_SEMAPHORE_CREATE_INFO => 9i32,
            VkStructureType::VK_STRUCTURE_TYPE_EVENT_CREATE_INFO => 10i32,
            VkStructureType::VK_STRUCTURE_TYPE_QUERY_POOL_CREATE_INFO => 11i32,
            VkStructureType::VK_STRUCTURE_TYPE_BUFFER_CREATE_INFO => 12i32,
            VkStructureType::VK_STRUCTURE_TYPE_BUFFER_VIEW_CREATE_INFO => 13i32,
            VkStructureType::VK_STRUCTURE_TYPE_IMAGE_CREATE_INFO => 14i32,
            VkStructureType::VK_STRUCTURE_TYPE_IMAGE_VIEW_CREATE_INFO => 15i32,
            VkStructureType::VK_STRUCTURE_TYPE_SHADER_MODULE_CREATE_INFO => 16i32,
            VkStructureType::VK_STRUCTURE_TYPE_PIPELINE_CACHE_CREATE_INFO => 17i32,
            VkStructureType::VK_STRUCTURE_TYPE_PIPELINE_SHADER_STAGE_CREATE_INFO => 18i32,
            VkStructureType::VK_STRUCTURE_TYPE_PIPELINE_VERTEX_INPUT_STATE_CREATE_INFO => 19i32,
            VkStructureType::VK_STRUCTURE_TYPE_PIPELINE_INPUT_ASSEMBLY_STATE_CREATE_INFO => 20i32,
            VkStructureType::VK_STRUCTURE_TYPE_PIPELINE_TESSELLATION_STATE_CREATE_INFO => 21i32,
            VkStructureType::VK_STRUCTURE_TYPE_PIPELINE_VIEWPORT_STATE_CREATE_INFO => 22i32,
            VkStructureType::VK_STRUCTURE_TYPE_PIPELINE_RASTERIZATION_STATE_CREATE_INFO => 23i32,
            VkStructureType::VK_STRUCTURE_TYPE_PIPELINE_MULTISAMPLE_STATE_CREATE_INFO => 24i32,
            VkStructureType::VK_STRUCTURE_TYPE_PIPELINE_DEPTH_STENCIL_STATE_CREATE_INFO => 25i32,
            VkStructureType::VK_STRUCTURE_TYPE_PIPELINE_COLOR_BLEND_STATE_CREATE_INFO => 26i32,
            VkStructureType::VK_STRUCTURE_TYPE_PIPELINE_DYNAMIC_STATE_CREATE_INFO => 27i32,
            VkStructureType::VK_STRUCTURE_TYPE_GRAPHICS_PIPELINE_CREATE_INFO => 28i32,
            VkStructureType::VK_STRUCTURE_TYPE_COMPUTE_PIPELINE_CREATE_INFO => 29i32,
            VkStructureType::VK_STRUCTURE_TYPE_PIPELINE_LAYOUT_CREATE_INFO => 30i32,
            VkStructureType::VK_STRUCTURE_TYPE_SAMPLER_CREATE_INFO => 31i32,
            VkStructureType::VK_STRUCTURE_TYPE_DESCRIPTOR_SET_LAYOUT_CREATE_INFO => 32i32,
            VkStructureType::VK_STRUCTURE_TYPE_DESCRIPTOR_POOL_CREATE_INFO => 33i32,
            VkStructureType::VK_STRUCTURE_TYPE_DESCRIPTOR_SET_ALLOCATE_INFO => 34i32,
            VkStructureType::VK_STRUCTURE_TYPE_WRITE_DESCRIPTOR_SET => 35i32,
            VkStructureType::VK_STRUCTURE_TYPE_COPY_DESCRIPTOR_SET => 36i32,
            VkStructureType::VK_STRUCTURE_TYPE_FRAMEBUFFER_CREATE_INFO => 37i32,
            VkStructureType::VK_STRUCTURE_TYPE_RENDER_PASS_CREATE_INFO => 38i32,
            VkStructureType::VK_STRUCTURE_TYPE_COMMAND_POOL_CREATE_INFO => 39i32,
            VkStructureType::VK_STRUCTURE_TYPE_COMMAND_BUFFER_ALLOCATE_INFO => 40i32,
            VkStructureType::VK_STRUCTURE_TYPE_COMMAND_BUFFER_INHERITANCE_INFO => 41i32,
            VkStructureType::VK_STRUCTURE_TYPE_COMMAND_BUFFER_BEGIN_INFO => 42i32,
            VkStructureType::VK_STRUCTURE_TYPE_RENDER_PASS_BEGIN_INFO => 43i32,
            VkStructureType::VK_STRUCTURE_TYPE_BUFFER_MEMORY_BARRIER => 44i32,
            VkStructureType::VK_STRUCTURE_TYPE_IMAGE_MEMORY_BARRIER => 45i32,
            VkStructureType::VK_STRUCTURE_TYPE_MEMORY_BARRIER => 46i32,
            VkStructureType::VK_STRUCTURE_TYPE_LOADER_INSTANCE_CREATE_INFO => 47i32,
            VkStructureType::VK_STRUCTURE_TYPE_LOADER_DEVICE_CREATE_INFO => 48i32,
            VkStructureType::VK_STRUCTURE_TYPE_SWAPCHAIN_CREATE_INFO_KHR => 1000001000i32,
            VkStructureType::VK_STRUCTURE_TYPE_PRESENT_INFO_KHR => 1000001001i32,
            VkStructureType::VK_STRUCTURE_TYPE_DISPLAY_MODE_CREATE_INFO_KHR => 1000002000i32,
            VkStructureType::VK_STRUCTURE_TYPE_DISPLAY_SURFACE_CREATE_INFO_KHR => 1000002001i32,
            VkStructureType::VK_STRUCTURE_TYPE_DISPLAY_PRESENT_INFO_KHR => 1000003000i32,
            VkStructureType::VK_STRUCTURE_TYPE_XLIB_SURFACE_CREATE_INFO_KHR => 1000004000i32,
            VkStructureType::VK_STRUCTURE_TYPE_XCB_SURFACE_CREATE_INFO_KHR => 1000005000i32,
            VkStructureType::VK_STRUCTURE_TYPE_WAYLAND_SURFACE_CREATE_INFO_KHR => 1000006000i32,
            VkStructureType::VK_STRUCTURE_TYPE_MIR_SURFACE_CREATE_INFO_KHR => 1000007000i32,
            VkStructureType::VK_STRUCTURE_TYPE_ANDROID_SURFACE_CREATE_INFO_KHR => 1000008000i32,
            VkStructureType::VK_STRUCTURE_TYPE_WIN32_SURFACE_CREATE_INFO_KHR => 1000009000i32,
            VkStructureType::VK_STRUCTURE_TYPE_DEBUG_REPORT_CALLBACK_CREATE_INFO_EXT =>
                1000011000i32,
            VkStructureType::VK_STRUCTURE_TYPE_PIPELINE_RASTERIZATION_STATE_RASTERIZATION_ORDER_AMD =>
                1000018000i32,
            VkStructureType::VK_STRUCTURE_TYPE_DEBUG_MARKER_OBJECT_NAME_INFO_EXT => 1000022000i32,
            VkStructureType::VK_STRUCTURE_TYPE_DEBUG_MARKER_OBJECT_TAG_INFO_EXT => 1000022001i32,
            VkStructureType::VK_STRUCTURE_TYPE_DEBUG_MARKER_MARKER_INFO_EXT => 1000022002i32,
            VkStructureType::VK_STRUCTURE_TYPE_DEDICATED_ALLOCATION_IMAGE_CREATE_INFO_NV =>
                1000026000i32,
            VkStructureType::VK_STRUCTURE_TYPE_DEDICATED_ALLOCATION_BUFFER_CREATE_INFO_NV =>
                1000026001i32,
            VkStructureType::VK_STRUCTURE_TYPE_DEDICATED_ALLOCATION_MEMORY_ALLOCATE_INFO_NV =>
                1000026002i32,
            VkStructureType::VK_STRUCTURE_TYPE_RENDER_PASS_MULTIVIEW_CREATE_INFO_KHX =>
                1000053000i32,
            VkStructureType::VK_STRUCTURE_TYPE_PHYSICAL_DEVICE_MULTIVIEW_FEATURES_KHX =>
                1000053001i32,
            VkStructureType::VK_STRUCTURE_TYPE_PHYSICAL_DEVICE_MULTIVIEW_PROPERTIES_KHX =>
                1000053002i32,
            VkStructureType::VK_STRUCTURE_TYPE_EXTERNAL_MEMORY_IMAGE_CREATE_INFO_NV =>
                1000056000i32,
            VkStructureType::VK_STRUCTURE_TYPE_EXPORT_MEMORY_ALLOCATE_INFO_NV => 1000056001i32,
            VkStructureType::VK_STRUCTURE_TYPE_IMPORT_MEMORY_WIN32_HANDLE_INFO_NV => 1000057000i32,
            VkStructureType::VK_STRUCTURE_TYPE_EXPORT_MEMORY_WIN32_HANDLE_INFO_NV => 1000057001i32,
            VkStructureType::VK_STRUCTURE_TYPE_WIN32_KEYED_MUTEX_ACQUIRE_RELEASE_INFO_NV =>
                1000058000i32,
            VkStructureType::VK_STRUCTURE_TYPE_PHYSICAL_DEVICE_FEATURES_2_KHR => 1000059000i32,
            VkStructureType::VK_STRUCTURE_TYPE_PHYSICAL_DEVICE_PROPERTIES_2_KHR => 1000059001i32,
            VkStructureType::VK_STRUCTURE_TYPE_FORMAT_PROPERTIES_2_KHR => 1000059002i32,
            VkStructureType::VK_STRUCTURE_TYPE_IMAGE_FORMAT_PROPERTIES_2_KHR => 1000059003i32,
            VkStructureType::VK_STRUCTURE_TYPE_PHYSICAL_DEVICE_IMAGE_FORMAT_INFO_2_KHR =>
                1000059004i32,
            VkStructureType::VK_STRUCTURE_TYPE_QUEUE_FAMILY_PROPERTIES_2_KHR => 1000059005i32,
            VkStructureType::VK_STRUCTURE_TYPE_PHYSICAL_DEVICE_MEMORY_PROPERTIES_2_KHR =>
                1000059006i32,
            VkStructureType::VK_STRUCTURE_TYPE_SPARSE_IMAGE_FORMAT_PROPERTIES_2_KHR =>
                1000059007i32,
            VkStructureType::VK_STRUCTURE_TYPE_PHYSICAL_DEVICE_SPARSE_IMAGE_FORMAT_INFO_2_KHR =>
                1000059008i32,
            VkStructureType::VK_STRUCTURE_TYPE_MEMORY_ALLOCATE_FLAGS_INFO_KHX => 1000060000i32,
            VkStructureType::VK_STRUCTURE_TYPE_BIND_BUFFER_MEMORY_INFO_KHX => 1000060001i32,
            VkStructureType::VK_STRUCTURE_TYPE_BIND_IMAGE_MEMORY_INFO_KHX => 1000060002i32,
            VkStructureType::VK_STRUCTURE_TYPE_DEVICE_GROUP_RENDER_PASS_BEGIN_INFO_KHX =>
                1000060003i32,
            VkStructureType::VK_STRUCTURE_TYPE_DEVICE_GROUP_COMMAND_BUFFER_BEGIN_INFO_KHX =>
                1000060004i32,
            VkStructureType::VK_STRUCTURE_TYPE_DEVICE_GROUP_SUBMIT_INFO_KHX => 1000060005i32,
            VkStructureType::VK_STRUCTURE_TYPE_DEVICE_GROUP_BIND_SPARSE_INFO_KHX => 1000060006i32,
            VkStructureType::VK_STRUCTURE_TYPE_DEVICE_GROUP_PRESENT_CAPABILITIES_KHX =>
                1000060007i32,
            VkStructureType::VK_STRUCTURE_TYPE_IMAGE_SWAPCHAIN_CREATE_INFO_KHX => 1000060008i32,
            VkStructureType::VK_STRUCTURE_TYPE_BIND_IMAGE_MEMORY_SWAPCHAIN_INFO_KHX =>
                1000060009i32,
            VkStructureType::VK_STRUCTURE_TYPE_ACQUIRE_NEXT_IMAGE_INFO_KHX => 1000060010i32,
            VkStructureType::VK_STRUCTURE_TYPE_DEVICE_GROUP_PRESENT_INFO_KHX => 1000060011i32,
            VkStructureType::VK_STRUCTURE_TYPE_DEVICE_GROUP_SWAPCHAIN_CREATE_INFO_KHX =>
                1000060012i32,
            VkStructureType::VK_STRUCTURE_TYPE_VALIDATION_FLAGS_EXT => 1000061000i32,
            VkStructureType::VK_STRUCTURE_TYPE_VI_SURFACE_CREATE_INFO_NN => 1000062000i32,
            VkStructureType::VK_STRUCTURE_TYPE_PHYSICAL_DEVICE_GROUP_PROPERTIES_KHX =>
                1000070000i32,
            VkStructureType::VK_STRUCTURE_TYPE_DEVICE_GROUP_DEVICE_CREATE_INFO_KHX => 1000070001i32,
            VkStructureType::VK_STRUCTURE_TYPE_PHYSICAL_DEVICE_EXTERNAL_IMAGE_FORMAT_INFO_KHX =>
                1000071000i32,
            VkStructureType::VK_STRUCTURE_TYPE_EXTERNAL_IMAGE_FORMAT_PROPERTIES_KHX =>
                1000071001i32,
            VkStructureType::VK_STRUCTURE_TYPE_PHYSICAL_DEVICE_EXTERNAL_BUFFER_INFO_KHX =>
                1000071002i32,
            VkStructureType::VK_STRUCTURE_TYPE_EXTERNAL_BUFFER_PROPERTIES_KHX => 1000071003i32,
            VkStructureType::VK_STRUCTURE_TYPE_PHYSICAL_DEVICE_ID_PROPERTIES_KHX => 1000071004i32,
            VkStructureType::VK_STRUCTURE_TYPE_EXTERNAL_MEMORY_BUFFER_CREATE_INFO_KHX =>
                1000072000i32,
            VkStructureType::VK_STRUCTURE_TYPE_EXTERNAL_MEMORY_IMAGE_CREATE_INFO_KHX =>
                1000072001i32,
            VkStructureType::VK_STRUCTURE_TYPE_EXPORT_MEMORY_ALLOCATE_INFO_KHX => 1000072002i32,
            VkStructureType::VK_STRUCTURE_TYPE_IMPORT_MEMORY_WIN32_HANDLE_INFO_KHX => 1000073000i32,
            VkStructureType::VK_STRUCTURE_TYPE_EXPORT_MEMORY_WIN32_HANDLE_INFO_KHX => 1000073001i32,
            VkStructureType::VK_STRUCTURE_TYPE_MEMORY_WIN32_HANDLE_PROPERTIES_KHX => 1000073002i32,
            VkStructureType::VK_STRUCTURE_TYPE_IMPORT_MEMORY_FD_INFO_KHX => 1000074000i32,
            VkStructureType::VK_STRUCTURE_TYPE_MEMORY_FD_PROPERTIES_KHX => 1000074001i32,
            VkStructureType::VK_STRUCTURE_TYPE_WIN32_KEYED_MUTEX_ACQUIRE_RELEASE_INFO_KHX =>
                1000075000i32,
            VkStructureType::VK_STRUCTURE_TYPE_PHYSICAL_DEVICE_EXTERNAL_SEMAPHORE_INFO_KHX =>
                1000076000i32,
            VkStructureType::VK_STRUCTURE_TYPE_EXTERNAL_SEMAPHORE_PROPERTIES_KHX => 1000076001i32,
            VkStructureType::VK_STRUCTURE_TYPE_EXPORT_SEMAPHORE_CREATE_INFO_KHX => 1000077000i32,
            VkStructureType::VK_STRUCTURE_TYPE_IMPORT_SEMAPHORE_WIN32_HANDLE_INFO_KHX =>
                1000078000i32,
            VkStructureType::VK_STRUCTURE_TYPE_EXPORT_SEMAPHORE_WIN32_HANDLE_INFO_KHX =>
                1000078001i32,
            VkStructureType::VK_STRUCTURE_TYPE_D3D12_FENCE_SUBMIT_INFO_KHX => 1000078002i32,
            VkStructureType::VK_STRUCTURE_TYPE_IMPORT_SEMAPHORE_FD_INFO_KHX => 1000079000i32,
            VkStructureType::VK_STRUCTURE_TYPE_PHYSICAL_DEVICE_PUSH_DESCRIPTOR_PROPERTIES_KHR =>
                1000080000i32,
            VkStructureType::VK_STRUCTURE_TYPE_PRESENT_REGIONS_KHR => 1000084000i32,
            VkStructureType::VK_STRUCTURE_TYPE_DESCRIPTOR_UPDATE_TEMPLATE_CREATE_INFO_KHR =>
                1000085000i32,
            VkStructureType::VK_STRUCTURE_TYPE_OBJECT_TABLE_CREATE_INFO_NVX => 1000086000i32,
            VkStructureType::VK_STRUCTURE_TYPE_INDIRECT_COMMANDS_LAYOUT_CREATE_INFO_NVX =>
                1000086001i32,
            VkStructureType::VK_STRUCTURE_TYPE_CMD_PROCESS_COMMANDS_INFO_NVX => 1000086002i32,
            VkStructureType::VK_STRUCTURE_TYPE_CMD_RESERVE_SPACE_FOR_COMMANDS_INFO_NVX =>
                1000086003i32,
            VkStructureType::VK_STRUCTURE_TYPE_DEVICE_GENERATED_COMMANDS_LIMITS_NVX =>
                1000086004i32,
            VkStructureType::VK_STRUCTURE_TYPE_DEVICE_GENERATED_COMMANDS_FEATURES_NVX =>
                1000086005i32,
            VkStructureType::VK_STRUCTURE_TYPE_PIPELINE_VIEWPORT_W_SCALING_STATE_CREATE_INFO_NV =>
                1000087000i32,
            VkStructureType::VK_STRUCTURE_TYPE_SURFACE_CAPABILITIES2_EXT => 1000090000i32,
            VkStructureType::VK_STRUCTURE_TYPE_DISPLAY_POWER_INFO_EXT => 1000091000i32,
            VkStructureType::VK_STRUCTURE_TYPE_DEVICE_EVENT_INFO_EXT => 1000091001i32,
            VkStructureType::VK_STRUCTURE_TYPE_DISPLAY_EVENT_INFO_EXT => 1000091002i32,
            VkStructureType::VK_STRUCTURE_TYPE_SWAPCHAIN_COUNTER_CREATE_INFO_EXT => 1000091003i32,
            VkStructureType::VK_STRUCTURE_TYPE_PRESENT_TIMES_INFO_GOOGLE => 1000092000i32,
            VkStructureType::VK_STRUCTURE_TYPE_PHYSICAL_DEVICE_MULTIVIEW_PER_VIEW_ATTRIBUTES_PROPERTIES_NVX =>
                1000097000i32,
            VkStructureType::VK_STRUCTURE_TYPE_PIPELINE_VIEWPORT_SWIZZLE_STATE_CREATE_INFO_NV =>
                1000098000i32,
            VkStructureType::VK_STRUCTURE_TYPE_PHYSICAL_DEVICE_DISCARD_RECTANGLE_PROPERTIES_EXT =>
                1000099000i32,
            VkStructureType::VK_STRUCTURE_TYPE_PIPELINE_DISCARD_RECTANGLE_STATE_CREATE_INFO_EXT =>
                1000099001i32,
            VkStructureType::VK_STRUCTURE_TYPE_HDR_METADATA_EXT => 1000105000i32,
            VkStructureType::VK_STRUCTURE_TYPE_IOS_SURFACE_CREATE_INFO_MVK => 1000122000i32,
            VkStructureType::VK_STRUCTURE_TYPE_MACOS_SURFACE_CREATE_INFO_MVK => 1000123000i32,
        }
    }

    #[verifier::when_used_as_spec(spec_value)]
    pub fn value(&self) -> (value: i32)
        ensures
            value == self.spec_value(),
    {
        match self {
            VkStructureType::VK_STRUCTURE_TYPE_APPLICATION_INFO => 0,
            VkStructureType::VK_STRUCTURE_TYPE_INSTANCE_CREATE_INFO => 1,
            VkStructureType::VK_STRUCTURE_TYPE_DEVICE_QUEUE_CREATE_INFO => 2,
            VkStructureType::VK_STRUCTURE_TYPE_DEVICE_CREATE_INFO => 3,
            VkStructureType::VK_STRUCTURE_TYPE_SUBMIT_INFO => 4,
            VkStructureType::VK_STRUCTURE_TYPE_MEMORY_ALLOCATE_INFO => 5,
            VkStructureType::VK_STRUCTURE_TYPE_MAPPED_MEMORY_RANGE => 6,
            VkStructureType::VK_STRUCTURE_TYPE_BIND_SPARSE_INFO => 7,
            VkStructureType::VK_STRUCTURE_TYPE_FENCE_CREATE_INFO => 8,
            VkStructureType::VK_STRUCTURE_TYPE_SEMAPHORE_CREATE_INFO => 9,
            VkStructureType::VK_STRUCTURE_TYPE_EVENT_CREATE_INFO => 10,
            VkStructureType::VK_STRUCTURE_TYPE_QUERY_POOL_CREATE_INFO => 11,
            VkStructureType::VK_STRUCTURE_TYPE_BUFFER_CREATE_INFO => 12,
            VkStructureType::VK_STRUCTURE_TYPE_BUFFER_VIEW_CREATE_INFO => 13,
            VkStructureType::VK_STRUCTURE_TYPE_IMAGE_CREATE_INFO => 14,
            VkStructureType::VK_STRUCTURE_TYPE_IMAGE_VIEW_CREATE_INFO => 15,
            VkStructureType::VK_STRUCTURE_TYPE_SHADER_MODULE_CREATE_INFO => 16,
            VkStructureType::VK_STRUCTURE_TYPE_PIPELINE_CACHE_CREATE_INFO => 17,
            VkStructureType::VK_STRUCTURE_TYPE_PIPELINE_SHADER_STAGE_CREATE_INFO => 18,
            VkStructureType::VK_STRUCTURE_TYPE_PIPELINE_VERTEX_INPUT_STATE_CREATE_INFO => 19,
            VkStructureType::VK_STRUCTURE_TYPE_PIPELINE_INPUT_ASSEMBLY_STATE_CREATE_INFO => 20,
            VkStructureType::VK_STRUCTURE_TYPE_PIPELINE_TESSELLATION_STATE_CREATE_INFO => 21,
            VkStructureType::VK_STRUCTURE_TYPE_PIPELINE_VIEWPORT_STATE_CREATE_INFO => 22,
            VkStructureType::VK_STRUCTURE_TYPE_PIPELINE_RASTERIZATION_STATE_CREATE_INFO => 23,
            VkStructureType::VK_STRUCTURE_TYPE_PIPELINE_MULTISAMPLE_STATE_CREATE_INFO => 24,
            VkStructureType::VK_STRUCTURE_TYPE_PIPELINE_DEPTH_STENCIL_STATE_CREATE_INFO => 25,
            VkStructureType::VK_STRUCTURE_TYPE_PIPELINE_COLOR_BLEND_STATE_CREATE_INFO => 26,
            VkStructureType::VK_STRUCTURE_TYPE_PIPELINE_DYNAMIC_STATE_CREATE_INFO => 27,
            VkStructureType::VK_STRUCTURE_TYPE_GRAPHICS_PIPELINE_CREATE_INFO => 28,
            VkStructureType::VK_STRUCTURE_TYPE_COMPUTE_PIPELINE_CREATE_INFO => 29,
            VkStructureType::VK_STRUCTURE_TYPE_PIPELINE_LAYOUT_CREATE_INFO => 30,
            VkStructureType::VK_STRUCTURE_TYPE_SAMPLER_CREATE_INFO => 31,
            VkStructureType::VK_STRUCTURE_TYPE_DESCRIPTOR_SET_LAYOUT_CREATE_INFO => 32,
            VkStructureType::VK_STRUCTURE_TYPE_DESCRIPTOR_POOL_CREATE_INFO => 33,
            VkStructureType::VK_STRUCTURE_TYPE_DESCRIPTOR_SET_ALLOCATE_INFO => 34,
            VkStructureType::VK_STRUCTURE_TYPE_WRITE_DESCRIPTOR_SET => 35,
            VkStructureType::VK_STRUCTURE_TYPE_COPY_DESCRIPTOR_SET => 36,
            VkStructureType::VK_STRUCTURE_TYPE_FRAMEBUFFER_CREATE_INFO => 37,
            VkStructureType::VK_STRUCTURE_TYPE_RENDER_PASS_CREATE_INFO => 38,
            VkStructureType::VK_STRUCTURE_TYPE_COMMAND_POOL_CREATE_INFO => 39,
            VkStructureType::VK_STRUCTURE_TYPE_COMMAND_BUFFER_ALLOCATE_INFO => 40,
            VkStructureType::VK_STRUCTURE_TYPE_COMMAND_BUFFER_INHERITANCE_INFO => 41,
            VkStructureType::VK_STRUCTURE_TYPE_COMMAND_BUFFER_BEGIN_INFO => 42,
            VkStructureType::VK_STRUCTURE_TYPE_RENDER_PASS_BEGIN_INFO => 43,
            VkStructureType::VK_STRUCTURE_TYPE_BUFFER_MEMORY_BARRIER => 44,
            VkStructureType::VK_STRUCTURE_TYPE_IMAGE_MEMORY_BARRIER => 45,
            VkStructureType::VK_STRUCTURE_TYPE_MEMORY_BARRIER => 46,
            VkStructureType::VK_STRUCTURE_TYPE_LOADER_INSTANCE_CREATE_INFO => 47,
            VkStructureType::VK_STRUCTURE_TYPE_LOADER_DEVICE_CREATE_INFO => 48,
            VkStructureType::VK_STRUCTURE_TYPE_SWAPCHAIN_CREATE_INFO_KHR => 1000001000,
            VkStructureType::VK_STRUCTURE_TYPE_PRESENT_INFO_KHR => 1000001001,
            VkStructureType::VK_STRUCTURE_TYPE_DISPLAY_MODE_CREATE_INFO_KHR => 1000002000,
            VkStructureType::VK_STRUCTURE_TYPE_DISPLAY_SURFACE_CREATE_INFO_KHR => 1000002001,
            VkStructureType::VK_STRUCTURE_TYPE_DISPLAY_PRESENT_INFO_KHR => 1000003000,
            VkStructureType::VK_STRUCTURE_TYPE_XLIB_SURFACE_CREATE_INFO_KHR => 1000004000,
            VkStructureType::VK_STRUCTURE_TYPE_XCB_SURFACE_CREATE_INFO_KHR => 1000005000,
            VkStructureType::VK_STRUCTURE_TYPE_WAYLAND_SURFACE_CREATE_INFO_KHR => 1000006000,
            VkStructureType::VK_STRUCTURE_TYPE_MIR_SURFACE_CREATE_INFO_KHR => 1000007000,
            VkStructureType::VK_STRUCTURE_TYPE_ANDROID_SURFACE_CREATE_INFO_KHR => 1000008000,
            VkStructureType::VK_STRUCTURE_TYPE_WIN32_SURFACE_CREATE_INFO_KHR => 1000009000,
            VkStructureType::VK_STRUCTURE_TYPE_DEBUG_REPORT_CALLBACK_CREATE_INFO_EXT => 1000011000,
            VkStructureType::VK_STRUCTURE_TYPE_PIPELINE_RASTERIZATION_STATE_RASTERIZATION_ORDER_AMD =>
                1000018000,
            VkStructureType::VK_STRUCTURE_TYPE_DEBUG_MARKER_OBJECT_NAME_INFO_EXT => 1000022000,
            VkStructureType::VK_STRUCTURE_TYPE_DEBUG_MARKER_OBJECT_TAG_INFO_EXT => 1000022001,
            VkStructureType::VK_STRUCTURE_TYPE_DEBUG_MARKER_MARKER_INFO_EXT => 1000022002,
            VkStructureType::VK_STRUCTURE_TYPE_DEDICATED_ALLOCATION_IMAGE_CREATE_INFO_NV =>
                1000026000,
            VkStructureType::VK_STRUCTURE_TYPE_DEDICATED_ALLOCATION_BUFFER_CREATE_INFO_NV =>
                1000026001,
            VkStructureType::VK_STRUCTURE_TYPE_DEDICATED_ALLOCATION_MEMORY_ALLOCATE_INFO_NV =>
                1000026002,
            VkStructureType::VK_STRUCTURE_TYPE_RENDER_PASS_MULTIVIEW_CREATE_INFO_KHX => 1000053000,
            VkStructureType::VK_STRUCTURE_TYPE_PHYSICAL_DEVICE_MULTIVIEW_FEATURES_KHX => 1000053001,
            VkStructureType::VK_STRUCTURE_TYPE_PHYSICAL_DEVICE_MULTIVIEW_PROPERTIES_KHX =>
                1000053002,
            VkStructureType::VK_STRUCTURE_TYPE_EXTERNAL_MEMORY_IMAGE_CREATE_INFO_NV => 1000056000,
            VkStructureType::VK_STRUCTURE_TYPE_EXPORT_MEMORY_ALLOCATE_INFO_NV => 1000056001,
            VkStructureType::VK_STRUCTURE_TYPE_IMPORT_MEMORY_WIN32_HANDLE_INFO_NV => 1000057000,
            VkStructureType::VK_STRUCTURE_TYPE_EXPORT_MEMORY_WIN32_HANDLE_INFO_NV => 1000057001,
            VkStructureType::VK_STRUCTURE_TYPE_WIN32_KEYED_MUTEX_ACQUIRE_RELEASE_INFO_NV =>
                1000058000,
            VkStructureType::VK_STRUCTURE_TYPE_PHYSICAL_DEVICE_FEATURES_2_KHR => 1000059000,
            VkStructureType::VK_STRUCTURE_TYPE_PHYSICAL_DEVICE_PROPERTIES_2_KHR => 1000059001,
            VkStructureType::VK_STRUCTURE_TYPE_FORMAT_PROPERTIES_2_KHR => 1000059002,
            VkStructureType::VK_STRUCTURE_TYPE_IMAGE_FORMAT_PROPERTIES_2_KHR => 1000059003,
            VkStructureType::VK_STRUCTURE_TYPE_PHYSICAL_DEVICE_IMAGE_FORMAT_INFO_2_KHR =>
                1000059004,
            VkStructureType::VK_STRUCTURE_TYPE_QUEUE_FAMILY_PROPERTIES_2_KHR => 1000059005,
            VkStructureType::VK_STRUCTURE_TYPE_PHYSICAL_DEVICE_MEMORY_PROPERTIES_2_KHR =>
                1000059006,
            VkStructureType::VK_STRUCTURE_TYPE_SPARSE_IMAGE_FORMAT_PROPERTIES_2_KHR => 1000059007,
            VkStructureType::VK_STRUCTURE_TYPE_PHYSICAL_DEVICE_SPARSE_IMAGE_FORMAT_INFO_2_KHR =>
                1000059008,
            VkStructureType::VK_STRUCTURE_TYPE_MEMORY_ALLOCATE_FLAGS_INFO_KHX => 1000060000,
            VkStructureType::VK_STRUCTURE_TYPE_BIND_BUFFER_MEMORY_INFO_KHX => 1000060001,
            VkStructureType::VK_STRUCTURE_TYPE_BIND_IMAGE_MEMORY_INFO_KHX => 1000060002,
            VkStructureType::VK_STRUCTURE_TYPE_DEVICE_GROUP_RENDER_PASS_BEGIN_INFO_KHX =>
                1000060003,
            VkStructureType::VK_STRUCTURE_TYPE_DEVICE_GROUP_COMMAND_BUFFER_BEGIN_INFO_KHX =>
                1000060004,
            VkStructureType::VK_STRUCTURE_TYPE_DEVICE_GROUP_SUBMIT_INFO_KHX => 1000060005,
            VkStructureType::VK_STRUCTURE_TYPE_DEVICE_GROUP_BIND_SPARSE_INFO_KHX => 1000060006,
            VkStructureType::VK_STRUCTURE_TYPE_DEVICE_GROUP_PRESENT_CAPABILITIES_KHX => 1000060007,
            VkStructureType::VK_STRUCTURE_TYPE_IMAGE_SWAPCHAIN_CREATE_INFO_KHX => 1000060008,
            VkStructureType::VK_STRUCTURE_TYPE_BIND_IMAGE_MEMORY_SWAPCHAIN_INFO_KHX => 1000060009,
            VkStructureType::VK_STRUCTURE_TYPE_ACQUIRE_NEXT_IMAGE_INFO_KHX => 1000060010,
            VkStructureType::VK_STRUCTURE_TYPE_DEVICE_GROUP_PRESENT_INFO_KHX => 1000060011,
            VkStructureType::VK_STRUCTURE_TYPE_DEVICE_GROUP_SWAPCHAIN_CREATE_INFO_KHX => 1000060012,
            VkStructureType::VK_STRUCTURE_TYPE_VALIDATION_FLAGS_EXT => 1000061000,
            VkStructureType::VK_STRUCTURE_TYPE_VI_SURFACE_CREATE_INFO_NN => 1000062000,
            VkStructureType::VK_STRUCTURE_TYPE_PHYSICAL_DEVICE_GROUP_PROPERTIES_KHX => 1000070000,
            VkStructureType::VK_STRUCTURE_TYPE_DEVICE_GROUP_DEVICE_CREATE_INFO_KHX => 1000070001,
            VkStructureType::VK_STRUCTURE_TYPE_PHYSICAL_DEVICE_EXTERNAL_IMAGE_FORMAT_INFO_KHX =>
                1000071000,
            VkStructureType::VK_STRUCTURE_TYPE_EXTERNAL_IMAGE_FORMAT_PROPERTIES_KHX => 1000071001,
            VkStructureType::VK_STRUCTURE_TYPE_PHYSICAL_DEVICE_EXTERNAL_BUFFER_INFO_KHX =>
                1000071002,
            VkStructureType::VK_STRUCTURE_TYPE_EXTERNAL_BUFFER_PROPERTIES_KHX => 1000071003,
            VkStructureType::VK_STRUCTURE_TYPE_PHYSICAL_DEVICE_ID_PROPERTIES_KHX => 1000071004,
            VkStructureType::VK_STRUCTURE_TYPE_EXTERNAL_MEMORY_BUFFER_CREATE_INFO_KHX => 1000072000,
            VkStructureType::VK_STRUCTURE_TYPE_EXTERNAL_MEMORY_IMAGE_CREATE_INFO_KHX => 1000072001,
            VkStructureType::VK_STRUCTURE_TYPE_EXPORT_MEMORY_ALLOCATE_INFO_KHX => 1000072002,
            VkStructureType::VK_STRUCTURE_TYPE_IMPORT_MEMORY_WIN32_HANDLE_INFO_KHX => 1000073000,
            VkStructureType::VK_STRUCTURE_TYPE_EXPORT_MEMORY_WIN32_HANDLE_INFO_KHX => 1000073001,
            VkStructureType::VK_STRUCTURE_TYPE_MEMORY_WIN32_HANDLE_PROPERTIES_KHX => 1000073002,
            VkStructureType::VK_STRUCTURE_TYPE_IMPORT_MEMORY_FD_INFO_KHX => 1000074000,
            VkStructureType::VK_STRUCTURE_TYPE_MEMORY_FD_PROPERTIES_KHX => 1000074001,
            VkStructureType::VK_STRUCTURE_TYPE_WIN32_KEYED_MUTEX_ACQUIRE_RELEASE_INFO_KHX =>
                1000075000,
            VkStructureType::VK_STRUCTURE_TYPE_PHYSICAL_DEVICE_EXTERNAL_SEMAPHORE_INFO_KHX =>
                1000076000,
            VkStructureType::VK_STRUCTURE_TYPE_EXTERNAL_SEMAPHORE_PROPERTIES_KHX => 1000076001,
            VkStructureType::VK_STRUCTURE_TYPE_EXPORT_SEMAPHORE_CREATE_INFO_KHX => 1000077000,
            VkStructureType::VK_STRUCTURE_TYPE_IMPORT_SEMAPHORE_WIN32_HANDLE_INFO_KHX => 1000078000,
            VkStructureType::VK_STRUCTURE_TYPE_EXPORT_SEMAPHORE_WIN32_HANDLE_INFO_KHX => 1000078001,
            VkStructureType::VK_STRUCTURE_TYPE_D3D12_FENCE_SUBMIT_INFO_KHX => 1000078002,
            VkStructureType::VK_STRUCTURE_TYPE_IMPORT_SEMAPHORE_FD_INFO_KHX => 1000079000,
            VkStructureType::VK_STRUCTURE_TYPE_PHYSICAL_DEVICE_PUSH_DESCRIPTOR_PROPERTIES_KHR =>
                1000080000,
            VkStructureType::VK_STRUCTURE_TYPE_PRESENT_REGIONS_KHR => 1000084000,
            VkStructureType::VK_STRUCTURE_TYPE_DESCRIPTOR_UPDATE_TEMPLATE_CREATE_INFO_KHR =>
                1000085000,
            VkStructureType::VK_STRUCTURE_TYPE_OBJECT_TABLE_CREATE_INFO_NVX => 1000086000,
            VkStructureType::VK_STRUCTURE_TYPE_INDIRECT_COMMANDS_LAYOUT_CREATE_INFO_NVX =>
                1000086001,
            VkStructureType::VK_STRUCTURE_TYPE_CMD_PROCESS_COMMANDS_INFO_NVX => 1000086002,
            VkStructureType::VK_STRUCTURE_TYPE_CMD_RESERVE_SPACE_FOR_COMMANDS_INFO_NVX =>
                1000086003,
            VkStructureType::VK_STRUCTURE_TYPE_DEVICE_GENERATED_COMMANDS_LIMITS_NVX => 1000086004,
            VkStructureType::VK_STRUCTURE_TYPE_DEVICE_GENERATED_COMMANDS_FEATURES_NVX => 1000086005,
            VkStructureType::VK_STRUCTURE_TYPE_PIPELINE_VIEWPORT_W_SCALING_STATE_CREATE_INFO_NV =>
                1000087000,
            VkStructureType::VK_STRUCTURE_TYPE_SURFACE_CAPABILITIES2_EXT => 1000090000,
            VkStructureType::VK_STRUCTURE_TYPE_DISPLAY_POWER_INFO_EXT => 1000091000,
            VkStructureType::VK_STRUCTURE_TYPE_DEVICE_EVENT_INFO_EXT => 1000091001,
            VkStructureType::VK_STRUCTURE_TYPE_DISPLAY_EVENT_INFO_EXT => 1000091002,
            VkStructureType::VK_STRUCTURE_TYPE_SWAPCHAIN_COUNTER_CREATE_INFO_EXT => 1000091003,
            VkStructureType::VK_STRUCTURE_TYPE_PRESENT_TIMES_INFO_GOOGLE => 1000092000,
            VkStructureType::VK_STRUCTURE_TYPE_PHYSICAL_DEVICE_MULTIVIEW_PER_VIEW_ATTRIBUTES_PROPERTIES_NVX =>
                1000097000,
            VkStructureType::VK_STRUCTURE_TYPE_PIPELINE_VIEWPORT_SWIZZLE_STATE_CREATE_INFO_NV =>
                1000098000,
            VkStructureType::VK_STRUCTURE_TYPE_PHYSICAL_DEVICE_DISCARD_RECTANGLE_PROPERTIES_EXT =>
                1000099000,
            VkStructureType::VK_STRUCTURE_TYPE_PIPELINE_DISCARD_RECTANGLE_STATE_CREATE_INFO_EXT =>
                1000099001,
            VkStructureType::VK_STRUCTURE_TYPE_HDR_METADATA_EXT => 1000105000,
            VkStructureType::VK_STRUCTURE_TYPE_IOS_SURFACE_CREATE_INFO_MVK => 1000122000,
            VkStructureType::VK_STRUCTURE_TYPE_MACOS_SURFACE_CREATE_INFO_MVK => 1000123000,
        }
    }
}

#[derive(Clone, Copy, Debug, PartialEq, Eq, Hash)]
pub enum VkSystemAllocationScope {
    VK_SYSTEM_ALLOCATION_SCOPE_COMMAND,
    VK_SYSTEM_ALLOCATION_SCOPE_OBJECT,
    VK_SYSTEM_ALLOCATION_SCOPE_CACHE,
    VK_SYSTEM_ALLOCATION_SCOPE_DEVICE,
    VK_SYSTEM_ALLOCATION_SCOPE_INSTANCE,
}

impl VkSystemAllocationScope {
    /// The number that stands for the variant in the native interface.
    pub open spec fn spec_value(&self) -> i32 {
        match self {
            VkSystemAllocationScope::VK_SYSTEM_ALLOCATION_SCOPE_COMMAND => 0i32,
            VkSystemAllocationScope::VK_SYSTEM_ALLOCATION_SCOPE_OBJECT => 1i32,
            VkSystemAllocationScope::VK_SYSTEM_ALLOCATION_SCOPE_CACHE => 2i32,
            VkSystemAllocationScope::VK_SYSTEM_ALLOCATION_SCOPE_DEVICE => 3i32,
            VkSystemAllocationScope::VK_SYSTEM_ALLOCATION_SCOPE_INSTANCE => 4i32,
        }
    }

    #[verifier::when_used_as_spec(spec_value)]
    pub fn value(&self) -> (value: i32)
        ensures
            value == self.spec_value(),
    {
        match self {
            VkSystemAllocationScope::VK_SYSTEM_ALLOCATION_SCOPE_COMMAND => 0,
            VkSystemAllocationScope::VK_SYSTEM_ALLOCATION_SCOPE_OBJECT => 1,
            VkSystemAllocationScope::VK_SYSTEM_ALLOCATION_SCOPE_CACHE => 2,
            VkSystemAllocationScope::VK_SYSTEM_ALLOCATION_SCOPE_DEVICE => 3,
            VkSystemAllocationScope::VK_SYSTEM_ALLOCATION_SCOPE_INSTANCE => 4,
        }
    }
}

#[derive(Clone, Copy, Debug, PartialEq, Eq, Hash)]
pub enum VkInternalAllocationType {
    VK_INTERNAL_ALLOCATION_TYPE_EXECUTABLE,
}

impl VkInternalAllocationType {
    /// The number that stands for the variant in the native interface.
    pub open spec fn spec_value(&self) -> i32 {
        match self {
            VkInternalAllocationType::VK_INTERNAL_ALLOCATION_TYPE_EXECUTABLE => 0i32,
        }
    }

    #[verifier::when_used_as_spec(spec_value)]
    pub fn value(&self) -> (value: i32)
        ensures
            value == self.spec_value(),
    {
        match self {
            VkInternalAllocationType::VK_INTERNAL_ALLOCATION_TYPE_EXECUTABLE => 0,
        }
    }
}

#[derive(Clone, Copy, Debug, PartialEq, Eq, Hash)]
pub enum VkFormat {
    VK_FORMAT_UNDEFINED,
    VK_FORMAT_R4G4_UNORM_PACK8,
    VK_FORMAT_R4G4B4A4_UNORM_PACK16,
    VK_FORMAT_B4G4R4A4_UNORM_PACK16,
    VK_FORMAT_R5G6B5_UNORM_PACK16,
    VK_FORMAT_B5G6R5_UNORM_PACK16,
    VK_FORMAT_R5G5B5A1_UNORM_PACK16,
    VK_FORMAT_B5G5R5A1_UNORM_PACK16,
    VK_FORMAT_A1R5G5B5_UNORM_PACK16,
    VK_FORMAT_R8_UNORM,
    VK_FORMAT_R8_SNORM,
    VK_FORMAT_R8_USCALED,
    VK_FORMAT_R8_SSCALED,
    VK_FORMAT_R8_UINT,
    VK_FORMAT_R8_SINT,
    VK_FORMAT_R8_SRGB,
    VK_FORMAT_R8G8_UNORM,
    VK_FORMAT_R8G8_SNORM,
    VK_FORMAT_R8G8_USCALED,
    VK_FORMAT_R8G8_SSCALED,
    VK_FORMAT_R8G8_UINT,
    VK_FORMAT_R8G8_SINT,
    VK_FORMAT_R8G8_SRGB,
    VK_FORMAT_R8G8B8_UNORM,
    VK_FORMAT_R8G8B8_SNORM,
    VK_FORMAT_R8G8B8_USCALED,
    VK_FORMAT_R8G8B8_SSCALED,
    VK_FORMAT_R8G8B8_UINT,
    VK_FORMAT_R8G8B8_SINT,
    VK_FORMAT_R8G8B8_SRGB,
    VK_FORMAT_B8G8R8_UNORM,
    VK_FORMAT_B8G8R8_SNORM,
    VK_FORMAT_B8G8R8_USCALED,
    VK_FORMAT_B8G8R8_SSCALED,
    VK_FORMAT_B8G8R8_UINT,
    VK_FORMAT_B8G8R8_SINT,
    VK_FORMAT_B8G8R8_SRGB,
    VK_FORMAT_R8G8B8A8_UNORM,
    VK_FORMAT_R8G8B8A8_SNORM,
    VK_FORMAT_R8G8B8A8_USCALED,
    VK_FORMAT_R8G8B8A8_SSCALED,
    VK_FORMAT_R8G8B8A8_UINT,
    VK_FORMAT_R8G8B8A8_SINT,
    VK_FORMAT_R8G8B8A8_SRGB,
    VK_FORMAT_B8G8R8A8_UNORM,
    VK_FORMAT_B8G8R8A8_SNORM,
    VK_FORMAT_B8G8R8A8_USCALED,
    VK_FORMAT_B8G8R8A8_SSCALED,
    VK_FORMAT_B8G8R8A8_UINT,
    VK_FORMAT_B8G8R8A8_SINT,
    VK_FORMAT_B8G8R8A8_SRGB,
    VK_FORMAT_A8B8G8R8_UNORM_PACK32,
    VK_FORMAT_A8B8G8R8_SNORM_PACK32,
    VK_FORMAT_A8B8G8R8_USCALED_PACK32,
    VK_FORMAT_A8B8G8R8_SSCALED_PACK32,
    VK_FORMAT_A8B8G8R8_UINT_PACK32,
    VK_FORMAT_A8B8G8R8_SINT_PACK32,
    VK_FORMAT_A8B8G8R8_SRGB_PACK32,
    VK_FORMAT_A2R10G10B10_UNORM_PACK32,
    VK_FORMAT_A2R10G10B10_SNORM_PACK32,
    VK_FORMAT_A2R10G10B10_USCALED_PACK32,
    VK_FORMAT_A2R10G10B10_SSCALED_PACK32,
    VK_FORMAT_A2R10G10B10_UINT_PACK32,
    VK_FORMAT_A2R10G10B10_SINT_PACK32,
    VK_FORMAT_A2B10G10R10_UNORM_PACK32,
    VK_FORMAT_A2B10G10R10_SNORM_PACK32,
    VK_FORMAT_A2B10G10R10_USCALED_PACK32,
    VK_FORMAT_A2B10G10R10_SSCALED_PACK32,
    VK_FORMAT_A2B10G10R10_UINT_PACK32,
    VK_FORMAT_A2B10G10R10_SINT_PACK32,
    VK_FORMAT_R16_UNORM,
    VK_FORMAT_R16_SNORM,
    VK_FORMAT_R16_USCALED,
    VK_FORMAT_R16_SSCALED,
    VK_FORMAT_R16_UINT,
    VK_FORMAT_R16_SINT,
    VK_FORMAT_R16_SFLOAT,
    VK_FORMAT_R16G16_UNORM,
    VK_FORMAT_R16G16_SNORM,
    VK_FORMAT_R16G16_USCALED,
    VK_FORMAT_R16G16_SSCALED,
    VK_FORMAT_R16G16_UINT,
    VK_FORMAT_R16G16_SINT,
    VK_FORMAT_R16G16_SFLOAT,
    VK_FORMAT_R16G16B16_UNORM,
    VK_FORMAT_R16G16B16_SNORM,
    VK_FORMAT_R16G16B16_USCALED,
    VK_FORMAT_R16G16B16_SSCALED,
    VK_FORMAT_R16G16B16_UINT,
    VK_FORMAT_R16G16B16_SINT,
    VK_FORMAT_R16G16B16_SFLOAT,
    VK_FORMAT_R16G16B16A16_UNORM,
    VK_FORMAT_R16G16B16A16_SNORM,
    VK_FORMAT_R16G16B16A16_USCALED,
    VK_FORMAT_R16G16B16A16_SSCALED,
    VK_FORMAT_R16G16B16A16_UINT,
    VK_FORMAT_R16G16B16A16_SINT,
    VK_FORMAT_R16G16B16A16_SFLOAT,
    VK_FORMAT_R32_UINT,
    VK_FORMAT_R32_SINT,
    VK_FORMAT_R32_SFLOAT,
    VK_FORMAT_R32G32_UINT,
    VK_FORMAT_R32G32_SINT,
    VK_FORMAT_R32G32_SFLOAT,
    VK_FORMAT_R32G32B32_UINT,
    VK_FORMAT_R32G32B32_SINT,
    VK_FORMAT_R32G32B32_SFLOAT,
    VK_FORMAT_R32G32B32A32_UINT,
    VK_FORMAT_R32G32B32A32_SINT,
    VK_FORMAT_R32G32B32A32_SFLOAT,
    VK_FORMAT_R64_UINT,
    VK_FORMAT_R64_SINT,
    VK_FORMAT_R64_SFLOAT,
    VK_FORMAT_R64G64_UINT,
    VK_FORMAT_R64G64_SINT,
    VK_FORMAT_R64G64_SFLOAT,
    VK_FORMAT_R64G64B64_UINT,
    VK_FORMAT_R64G64B64_SINT,
    VK_FORMAT_R64G64B64_SFLOAT,
    VK_FORMAT_R64G64B64A64_UINT,
    VK_FORMAT_R64G64B64A64_SINT,
    VK_FORMAT_R64G64B64A64_SFLOAT,
    VK_FORMAT_B10G11R11_UFLOAT_PACK32,
    VK_FORMAT_E5B9G9R9_UFLOAT_PACK32,
    VK_FORMAT_D16_UNORM,
    VK_FORMAT_X8_D24_UNORM_PACK32,
    VK_FORMAT_D32_SFLOAT,
    VK_FORMAT_S8_UINT,
    VK_FORMAT_D16_UNORM_S8_UINT,
    VK_FORMAT_D24_UNORM_S8_UINT,
    VK_FORMAT_D32_SFLOAT_S8_UINT,
    VK_FORMAT_BC1_RGB_UNORM_BLOCK,
    VK_FORMAT_BC1_RGB_SRGB_BLOCK,
    VK_FORMAT_BC1_RGBA_UNORM_BLOCK,
    VK_FORMAT_BC1_RGBA_SRGB_BLOCK,
    VK_FORMAT_BC2_UNORM_BLOCK,
    VK_FORMAT_BC2_SRGB_BLOCK,
    VK_FORMAT_BC3_UNORM_BLOCK,
    VK_FORMAT_BC3_SRGB_BLOCK,
    VK_FORMAT_BC4_UNORM_BLOCK,
    VK_FORMAT_BC4_SNORM_BLOCK,
    VK_FORMAT_BC5_UNORM_BLOCK,
    VK_FORMAT_BC5_SNORM_BLOCK,
    VK_FORMAT_BC6H_UFLOAT_BLOCK,
    VK_FORMAT_BC6H_SFLOAT_BLOCK,
    VK_FORMAT_BC7_UNORM_BLOCK,
    VK_FORMAT_BC7_SRGB_BLOCK,
    VK_FORMAT_ETC2_R8G8B8_UNORM_BLOCK,
    VK_FORMAT_ETC2_R8G8B8_SRGB_BLOCK,
    VK_FORMAT_ETC2_R8G8B8A1_UNORM_BLOCK,
    VK_FORMAT_ETC2_R8G8B8A1_SRGB_BLOCK,
    VK_FORMAT_ETC2_R8G8B8A8_UNORM_BLOCK,
    VK_FORMAT_ETC2_R8G8B8A8_SRGB_BLOCK,
    VK_FORMAT_EAC_R11_UNORM_BLOCK,
    VK_FORMAT_EAC_R11_SNORM_BLOCK,
    VK_FORMAT_EAC_R11G11_UNORM_BLOCK,
    VK_FORMAT_EAC_R11G11_SNORM_BLOCK,
    VK_FORMAT_ASTC_4x4_UNORM_BLOCK,
    VK_FORMAT_ASTC_4x4_SRGB_BLOCK,
    VK_FORMAT_ASTC_5x4_UNORM_BLOCK,
    VK_FORMAT_ASTC_5x4_SRGB_BLOCK,
    VK_FORMAT_ASTC_5x5_UNORM_BLOCK,
    VK_FORMAT_ASTC_5x5_SRGB_BLOCK,
    VK_FORMAT_ASTC_6x5_UNORM_BLOCK,
    VK_FORMAT_ASTC_6x5_SRGB_BLOCK,
    VK_FORMAT_ASTC_6x6_UNORM_BLOCK,
    VK_FORMAT_ASTC_6x6_SRGB_BLOCK,
    VK_FORMAT_ASTC_8x5_UNORM_BLOCK,
    VK_FORMAT_ASTC_8x5_SRGB_BLOCK,
    VK_FORMAT_ASTC_8x6_UNORM_BLOCK,
    VK_FORMAT_ASTC_8x6_SRGB_BLOCK,
    VK_FORMAT_ASTC_8x8_UNORM_BLOCK,
    VK_FORMAT_ASTC_8x8_SRGB_BLOCK,
    VK_FORMAT_ASTC_10x5_UNORM_BLOCK,
    VK_FORMAT_ASTC_10x5_SRGB_BLOCK,
    VK_FORMAT_ASTC_10x6_UNORM_BLOCK,
    VK_FORMAT_ASTC_10x6_SRGB_BLOCK,
    VK_FORMAT_ASTC_10x8_UNORM_BLOCK,
    VK_FORMAT_ASTC_10x8_SRGB_BLOCK,
    VK_FORMAT_ASTC_10x10_UNORM_BLOCK,
    VK_FORMAT_ASTC_10x10_SRGB_BLOCK,
    VK_FORMAT_ASTC_12x10_UNORM_BLOCK,
    VK_FORMAT_ASTC_12x10_SRGB_BLOCK,
    VK_FORMAT_ASTC_12x12_UNORM_BLOCK,
    VK_FORMAT_ASTC_12x12_SRGB_BLOCK,
    VK_FORMAT_PVRTC1_2BPP_UNORM_BLOCK_IMG,
    VK_FORMAT_PVRTC1_4BPP_UNORM_BLOCK_IMG,
    VK_FORMAT_PVRTC2_2BPP_UNORM_BLOCK_IMG,
    VK_FORMAT_PVRTC2_4BPP_UNORM_BLOCK_IMG,
    VK_FORMAT_PVRTC1_2BPP_SRGB_BLOCK_IMG,
    VK_FORMAT_PVRTC1_4BPP_SRGB_BLOCK_IMG,
    VK_FORMAT_PVRTC2_2BPP_SRGB_BLOCK_IMG,
    VK_FORMAT_PVRTC2_4BPP_SRGB_BLOCK_IMG,
}

impl VkFormat {
    /// The number that stands for the variant in the native interface.
    pub open spec fn spec_value(&self) -> i32 {
        match self {
            VkFormat::VK_FORMAT_UNDEFINED => 0i32,
            VkFormat::VK_FORMAT_R4G4_UNORM_PACK8 => 1i32,
            VkFormat::VK_FORMAT_R4G4B4A4_UNORM_PACK16 => 2i32,
            VkFormat::VK_FORMAT_B4G4R4A4_UNORM_PACK16 => 3i32,
            VkFormat::VK_FORMAT_R5G6B5_UNORM_PACK16 => 4i32,
            VkFormat::VK_FORMAT_B5G6R5_UNORM_PACK16 => 5i32,
            VkFormat::VK_FORMAT_R5G5B5A1_UNORM_PACK16 => 6i32,
            VkFormat::VK_FORMAT_B5G5R5A1_UNORM_PACK16 => 7i32,
            VkFormat::VK_FORMAT_A1R5G5B5_UNORM_PACK16 => 8i32,
            VkFormat::VK_FORMAT_R8_UNORM => 9i32,
            VkFormat::VK_FORMAT_R8_SNORM => 10i32,
            VkFormat::VK_FORMAT_R8_USCALED => 11i32,
            VkFormat::VK_FORMAT_R8_SSCALED => 12i32,
            VkFormat::VK_FORMAT_R8_UINT => 13i32,
            VkFormat::VK_FORMAT_R8_SINT => 14i32,
            VkFormat::VK_FORMAT_R8_SRGB => 15i32,
            VkFormat::VK_FORMAT_R8G8_UNORM => 16i32,
            VkFormat::VK_FORMAT_R8G8_SNORM => 17i32,
            VkFormat::VK_FORMAT_R8G8_USCALED => 18i32,
            VkFormat::VK_FORMAT_R8G8_SSCALED => 19i32,
            VkFormat::VK_FORMAT_R8G8_UINT => 20i32,
            VkFormat::VK_FORMAT_R8G8_SINT => 21i32,
            VkFormat::VK_FORMAT_R8G8_SRGB => 22i32,
            VkFormat::VK_FORMAT_R8G8B8_UNORM => 23i32,
            VkFormat::VK_FORMAT_R8G8B8_SNORM => 24i32,
            VkFormat::VK_FORMAT_R8G8B8_USCALED => 25i32,
            VkFormat::VK_FORMAT_R8G8B8_SSCALED => 26i32,
            VkFormat::VK_FORMAT_R8G8B8_UINT => 27i32,
            VkFormat::VK_FORMAT_R8G8B8_SINT => 28i32,
            VkFormat::VK_FORMAT_R8G8B8_SRGB => 29i32,
            VkFormat::VK_FORMAT_B8G8R8_UNORM => 30i32,
            VkFormat::VK_FORMAT_B8G8R8_SNORM => 31i32,
            VkFormat::VK_FORMAT_B8G8R8_USCALED => 32i32,
            VkFormat::VK_FORMAT_B8G8R8_SSCALED => 33i32,
            VkFormat::VK_FORMAT_B8G8R8_UINT => 34i32,
            VkFormat::VK_FORMAT_B8G8R8_SINT => 35i32,
            VkFormat::VK_FORMAT_B8G8R8_SRGB => 36i32,
            VkFormat::VK_FORMAT_R8G8B8A8_UNORM => 37i32,
            VkFormat::VK_FORMAT_R8G8B8A8_SNORM => 38i32,
            VkFormat::VK_FORMAT_R8G8B8A8_USCALED => 39i32,
            VkFormat::VK_FORMAT_R8G8B8A8_SSCALED => 40i32,
            VkFormat::VK_FORMAT_R8G8B8A8_UINT => 41i32,
            VkFormat::VK_FORMAT_R8G8B8A8_SINT => 42i32,
            VkFormat::VK_FORMAT_R8G8B8A8_SRGB => 43i32,
            VkFormat::VK_FORMAT_B8G8R8A8_UNORM => 44i32,
            VkFormat::VK_FORMAT_B8G8R8A8_SNORM => 45i32,
            VkFormat::VK_FORMAT_B8G8R8A8_USCALED => 46i32,
            VkFormat::VK_FORMAT_B8G8R8A8_SSCALED => 47i32,
            VkFormat::VK_FORMAT_B8G8R8A8_UINT => 48i32,
            VkFormat::VK_FORMAT_B8G8R8A8_SINT => 49i32,
            VkFormat::VK_FORMAT_B8G8R8A8_SRGB => 50i32,
            VkFormat::VK_FORMAT_A8B8G8R8_UNORM_PACK32 => 51i32,
            VkFormat::VK_FORMAT_A8B8G8R8_SNORM_PACK32 => 52i32,
            VkFormat::VK_FORMAT_A8B8G8R8_USCALED_PACK32 => 53i32,
            VkFormat::VK_FORMAT_A8B8G8R8_SSCALED_PACK32 => 54i32,
            VkFormat::VK_FORMAT_A8B8G8R8_UINT_PACK32 => 55i32,
            VkFormat::VK_FORMAT_A8B8G8R8_SINT_PACK32 => 56i32,
            VkFormat::VK_FORMAT_A8B8G8R8_SRGB_PACK32 => 57i32,
            VkFormat::VK_FORMAT_A2R10G10B10_UNORM_PACK32 => 58i32,
            VkFormat::VK_FORMAT_A2R10G10B10_SNORM_PACK32 => 59i32,
            VkFormat::VK_FORMAT_A2R10G10B10_USCALED_PACK32 => 60i32,
            VkFormat::VK_FORMAT_A2R10G10B10_SSCALED_PACK32 => 61i32,
            VkFormat::VK_FORMAT_A2R10G10B10_UINT_PACK32 => 62i32,
            VkFormat::VK_FORMAT_A2R10G10B10_SINT_PACK32 => 63i32,
            VkFormat::VK_FORMAT_A2B10G10R10_UNORM_PACK32 => 64i32,
            VkFormat::VK_FORMAT_A2B10G10R10_SNORM_PACK32 => 65i32,
            VkFormat::VK_FORMAT_A2B10G10R10_USCALED_PACK32 => 66i32,
            VkFormat::VK_FORMAT_A2B10G10R10_SSCALED_PACK32 => 67i32,
            VkFormat::VK_FORMAT_A2B10G10R10_UINT_PACK32 => 68i32,
            VkFormat::VK_FORMAT_A2B10G10R10_SINT_PACK32 => 69i32,
            VkFormat::VK_FORMAT_R16_UNORM => 70i32,
            VkFormat::VK_FORMAT_R16_SNORM => 71i32,
            VkFormat::VK_FORMAT_R16_USCALED => 72i32,
            VkFormat::VK_FORMAT_R16_SSCALED => 73i32,
            VkFormat::VK_FORMAT_R16_UINT => 74i32,
            VkFormat::VK_FORMAT_R16_SINT => 75i32,
            VkFormat::VK_FORMAT_R16_SFLOAT => 76i32,
            VkFormat::VK_FORMAT_R16G16_UNORM => 77i32,
            VkFormat::VK_FORMAT_R16G16_SNORM => 78i32,
            VkFormat::VK_FORMAT_R16G16_USCALED => 79i32,
            VkFormat::VK_FORMAT_R16G16_SSCALED => 80i32,
            VkFormat::VK_FORMAT_R16G16_UINT => 81i32,
            VkFormat::VK_FORMAT_R16G16_SINT => 82i32,
            VkFormat::VK_FORMAT_R16G16_SFLOAT => 83i32,
            VkFormat::VK_FORMAT_R16G16B16_UNORM => 84i32,
            VkFormat::VK_FORMAT_R16G16B16_SNORM => 85i32,
            VkFormat::VK_FORMAT_R16G16B16_USCALED => 86i32,
            VkFormat::VK_FORMAT_R16G16B16_SSCALED => 87i32,
            VkFormat::VK_FORMAT_R16G16B16_UINT => 88i32,
            VkFormat::VK_FORMAT_R16G16B16_SINT => 89i32,
            VkFormat::VK_FORMAT_R16G16B16_SFLOAT => 90i32,
            VkFormat::VK_FORMAT_R16G16B16A16_UNORM => 91i32,
            VkFormat::VK_FORMAT_R16G16B16A16_SNORM => 92i32,
            VkFormat::VK_FORMAT_R16G16B16A16_USCALED => 93i32,
            VkFormat::VK_FORMAT_R16G16B16A16_SSCALED => 94i32,
            VkFormat::VK_FORMAT_R16G16B16A16_UINT => 95i32,
            VkFormat::VK_FORMAT_R16G16B16A16_SINT => 96i32,
            VkFormat::VK_FORMAT_R16G16B16A16_SFLOAT => 97i32,
            VkFormat::VK_FORMAT_R32_UINT => 98i32,
            VkFormat::VK_FORMAT_R32_SINT => 99i32,
            VkFormat::VK_FORMAT_R32_SFLOAT => 100i32,
            VkFormat::VK_FORMAT_R32G32_UINT => 101i32,
            VkFormat::VK_FORMAT_R32G32_SINT => 102i32,
            VkFormat::VK_FORMAT_R32G32_SFLOAT => 103i32,
            VkFormat::VK_FORMAT_R32G32B32_UINT => 104i32,
            VkFormat::VK_FORMAT_R32G32B32_SINT => 105i32,
            VkFormat::VK_FORMAT_R32G32B32_SFLOAT => 106i32,
            VkFormat::VK_FORMAT_R32G32B32A32_UINT => 107i32,
            VkFormat::VK_FORMAT_R32G32B32A32_SINT => 108i32,
            VkFormat::VK_FORMAT_R32G32B32A32_SFLOAT => 109i32,
            VkFormat::VK_FORMAT_R64_UINT => 110i32,
            VkFormat::VK_FORMAT_R64_SINT => 111i32,
            VkFormat::VK_FORMAT_R64_SFLOAT => 112i32,
            VkFormat::VK_FORMAT_R64G64_UINT => 113i32,
            VkFormat::VK_FORMAT_R64G64_SINT => 114i32,
            VkFormat::VK_FORMAT_R64G64_SFLOAT => 115i32,
            VkFormat::VK_FORMAT_R64G64B64_UINT => 116i32,
            VkFormat::VK_FORMAT_R64G64B64_SINT => 117i32,
            VkFormat::VK_FORMAT_R64G64B64_SFLOAT => 118i32,
            VkFormat::VK_FORMAT_R64G64B64A64_UINT => 119i32,
            VkFormat::VK_FORMAT_R64G64B64A64_SINT => 120i32,
            VkFormat::VK_FORMAT_R64G64B64A64_SFLOAT => 121i32,
            VkFormat::VK_FORMAT_B10G11R11_UFLOAT_PACK32 => 122i32,
            VkFormat::VK_FORMAT_E5B9G9R9_UFLOAT_PACK32 => 123i32,
            VkFormat::VK_FORMAT_D16_UNORM => 124i32,
            VkFormat::VK_FORMAT_X8_D24_UNORM_PACK32 => 125i32,
            VkFormat::VK_FORMAT_D32_SFLOAT => 126i32,
            VkFormat::VK_FORMAT_S8_UINT => 127i32,
            VkFormat::VK_FORMAT_D16_UNORM_S8_UINT => 128i32,
            VkFormat::VK_FORMAT_D24_UNORM_S8_UINT => 129i32,
            VkFormat::VK_FORMAT_D32_SFLOAT_S8_UINT => 130i32,
            VkFormat::VK_FORMAT_BC1_RGB_UNORM_BLOCK => 131i32,
            VkFormat::VK_FORMAT_BC1_RGB_SRGB_BLOCK => 132i32,
            VkFormat::VK_FORMAT_BC1_RGBA_UNORM_BLOCK => 133i32,
            VkFormat::VK_FORMAT_BC1_RGBA_SRGB_BLOCK => 134i32,
            VkFormat::VK_FORMAT_BC2_UNORM_BLOCK => 135i32,
            VkFormat::VK_FORMAT_BC2_SRGB_BLOCK => 136i32,
            VkFormat::VK_FORMAT_BC3_UNORM_BLOCK => 137i32,
            VkFormat::VK_FORMAT_BC3_SRGB_BLOCK => 138i32,
            VkFormat::VK_FORMAT_BC4_UNORM_BLOCK => 139i32,
            VkFormat::VK_FORMAT_BC4_SNORM_BLOCK => 140i32,
            VkFormat::VK_FORMAT_BC5_UNORM_BLOCK => 141i32,
            VkFormat::VK_FORMAT_BC5_SNORM_BLOCK => 142i32,
            VkFormat::VK_FORMAT_BC6H_UFLOAT_BLOCK => 143i32,
            VkFormat::VK_FORMAT_BC6H_SFLOAT_BLOCK => 144i32,
            VkFormat::VK_FORMAT_BC7_UNORM_BLOCK => 145i32,
            VkFormat::VK_FORMAT_BC7_SRGB_BLOCK => 146i32,
            VkFormat::VK_FORMAT_ETC2_R8G8B8_UNORM_BLOCK => 147i32,
            VkFormat::VK_FORMAT_ETC2_R8G8B8_SRGB_BLOCK => 148i32,
            VkFormat::VK_FORMAT_ETC2_R8G8B8A1_UNORM_BLOCK => 149i32,
            VkFormat::VK_FORMAT_ETC2_R8G8B8A1_SRGB_BLOCK => 150i32,
            VkFormat::VK_FORMAT_ETC2_R8G8B8A8_UNORM_BLOCK => 151i32,
            VkFormat::VK_FORMAT_ETC2_R8G8B8A8_SRGB_BLOCK => 152i32,
            VkFormat::VK_FORMAT_EAC_R11_UNORM_BLOCK => 153i32,
            VkFormat::VK_FORMAT_EAC_R11_SNORM_BLOCK => 154i32,
            VkFormat::VK_FORMAT_EAC_R11G11_UNORM_BLOCK => 155i32,
            VkFormat::VK_FORMAT_EAC_R11G11_SNORM_BLOCK => 156i32,
            VkFormat::VK_FORMAT_ASTC_4x4_UNORM_BLOCK => 157i32,
            VkFormat::VK_FORMAT_ASTC_4x4_SRGB_BLOCK => 158i32,
            VkFormat::VK_FORMAT_ASTC_5x4_UNORM_BLOCK => 159i32,
            VkFormat::VK_FORMAT_ASTC_5x4_SRGB_BLOCK => 160i32,
            VkFormat::VK_FORMAT_ASTC_5x5_UNORM_BLOCK => 161i32,
            VkFormat::VK_FORMAT_ASTC_5x5_SRGB_BLOCK => 162i32,
            VkFormat::VK_FORMAT_ASTC_6x5_UNORM_BLOCK => 163i32,
            VkFormat::VK_FORMAT_ASTC_6x5_SRGB_BLOCK => 164i32,
            VkFormat::VK_FORMAT_ASTC_6x6_UNORM_BLOCK => 165i32,
            VkFormat::VK_FORMAT_ASTC_6x6_SRGB_BLOCK => 166i32,
            VkFormat::VK_FORMAT_ASTC_8x5_UNORM_BLOCK => 167i32,
            VkFormat::VK_FORMAT_ASTC_8x5_SRGB_BLOCK => 168i32,
            VkFormat::VK_FORMAT_ASTC_8x6_UNORM_BLOCK => 169i32,
            VkFormat::VK_FORMAT_ASTC_8x6_SRGB_BLOCK => 170i32,
            VkFormat::VK_FORMAT_ASTC_8x8_UNORM_BLOCK => 171i32,
            VkFormat::VK_FORMAT_ASTC_8x8_SRGB_BLOCK => 172i32,
            VkFormat::VK_FORMAT_ASTC_10x5_UNORM_BLOCK => 173i32,
            VkFormat::VK_FORMAT_ASTC_10x5_SRGB_BLOCK => 174i32,
            VkFormat::VK_FORMAT_ASTC_10x6_UNORM_BLOCK => 175i32,
            VkFormat::VK_FORMAT_ASTC_10x6_SRGB_BLOCK => 176i32,
            VkFormat::VK_FORMAT_ASTC_10x8_UNORM_BLOCK => 177i32,
            VkFormat::VK_FORMAT_ASTC_10x8_SRGB_BLOCK => 178i32,
            VkFormat::VK_FORMAT_ASTC_10x10_UNORM_BLOCK => 179i32,
            VkFormat::VK_FORMAT_ASTC_10x10_SRGB_BLOCK => 180i32,
            VkFormat::VK_FORMAT_ASTC_12x10_UNORM_BLOCK => 181i32,
            VkFormat::VK_FORMAT_ASTC_12x10_SRGB_BLOCK => 182i32,
            VkFormat::VK_FORMAT_ASTC_12x12_UNORM_BLOCK => 183i32,
            VkFormat::VK_FORMAT_ASTC_12x12_SRGB_BLOCK => 184i32,
            VkFormat::VK_FORMAT_PVRTC1_2BPP_UNORM_BLOCK_IMG => 1000054000i32,
            VkFormat::VK_FORMAT_PVRTC1_4BPP_UNORM_BLOCK_IMG => 1000054001i32,
            VkFormat::VK_FORMAT_PVRTC2_2BPP_UNORM_BLOCK_IMG => 1000054002i32,
            VkFormat::VK_FORMAT_PVRTC2_4BPP_UNORM_BLOCK_IMG => 1000054003i32,
            VkFormat::VK_FORMAT_PVRTC1_2BPP_SRGB_BLOCK_IMG => 1000054004i32,
            VkFormat::VK_FORMAT_PVRTC1_4BPP_SRGB_BLOCK_IMG => 1000054005i32,
            VkFormat::VK_FORMAT_PVRTC2_2BPP_SRGB_BLOCK_IMG => 1000054006i32,
            VkFormat::VK_FORMAT_PVRTC2_4BPP_SRGB_BLOCK_IMG => 1000054007i32,
        }
    }

    #[verifier::when_used_as_spec(spec_value)]
    pub fn value(&self) -> (value: i32)
        ensures
            value == self.spec_value(),
    {
        match self {
            VkFormat::VK_FORMAT_UNDEFINED => 0,
            VkFormat::VK_FORMAT_R4G4_UNORM_PACK8 => 1,
            VkFormat::VK_FORMAT_R4G4B4A4_UNORM_PACK16 => 2,
            VkFormat::VK_FORMAT_B4G4R4A4_UNORM_PACK16 => 3,
            VkFormat::VK_FORMAT_R5G6B5_UNORM_PACK16 => 4,
            VkFormat::VK_FORMAT_B5G6R5_UNORM_PACK16 => 5,
            VkFormat::VK_FORMAT_R5G5B5A1_UNORM_PACK16 => 6,
            VkFormat::VK_FORMAT_B5G5R5A1_UNORM_PACK16 => 7,
            VkFormat::VK_FORMAT_A1R5G5B5_UNORM_PACK16 => 8,
            VkFormat::VK_FORMAT_R8_UNORM => 9,
            VkFormat::VK_FORMAT_R8_SNORM => 10,
            VkFormat::VK_FORMAT_R8_USCALED => 11,
            VkFormat::VK_FORMAT_R8_SSCALED => 12,
            VkFormat::VK_FORMAT_R8_UINT => 13,
            VkFormat::VK_FORMAT_R8_SINT => 14,
            VkFormat::VK_FORMAT_R8_SRGB => 15,
            VkFormat::VK_FORMAT_R8G8_UNORM => 16,
            VkFormat::VK_FORMAT_R8G8_SNORM => 17,
            VkFormat::VK_FORMAT_R8G8_USCALED => 18,
            VkFormat::VK_FORMAT_R8G8_SSCALED => 19,
            VkFormat::VK_FORMAT_R8G8_UINT => 20,
            VkFormat::VK_FORMAT_R8G8_SINT => 21,
            VkFormat::VK_FORMAT_R8G8_SRGB => 22,
            VkFormat::VK_FORMAT_R8G8B8_UNORM => 23,
            VkFormat::VK_FORMAT_R8G8B8_SNORM => 24,
            VkFormat::VK_FORMAT_R8G8B8_USCALED => 25,
            VkFormat::VK_FORMAT_R8G8B8_SSCALED => 26,
            VkFormat::VK_FORMAT_R8G8B8_UINT => 27,
            VkFormat::VK_FORMAT_R8G8B8_SINT => 28,
            VkFormat::VK_FORMAT_R8G8B8_SRGB => 29,
            VkFormat::VK_FORMAT_B8G8R8_UNORM => 30,
            VkFormat::VK_FORMAT_B8G8R8_SNORM => 31,
            VkFormat::VK_FORMAT_B8G8R8_USCALED => 32,
            VkFormat::VK_FORMAT_B8G8R8_SSCALED => 33,
            VkFormat::VK_FORMAT_B8G8R8_UINT => 34,
            VkFormat::VK_FORMAT_B8G8R8_SINT => 35,
            VkFormat::VK_FORMAT_B8G8R8_SRGB => 36,
            VkFormat::VK_FORMAT_R8G8B8A8_UNORM => 37,
            VkFormat::VK_FORMAT_R8G8B8A8_SNORM => 38,
            VkFormat::VK_FORMAT_R8G8B8A8_USCALED => 39,
            VkFormat::VK_FORMAT_R8G8B8A8_SSCALED => 40,
            VkFormat::VK_FORMAT_R8G8B8A8_UINT => 41,
            VkFormat::VK_FORMAT_R8G8B8A8_SINT => 42,
            VkFormat::VK_FORMAT_R8G8B8A8_SRGB => 43,
            VkFormat::VK_FORMAT_B8G8R8A8_UNORM => 44,
            VkFormat::VK_FORMAT_B8G8R8A8_SNORM => 45,
            VkFormat::VK_FORMAT_B8G8R8A8_USCALED => 46,
            VkFormat::VK_FORMAT_B8G8R8A8_SSCALED => 47,
            VkFormat::VK_FORMAT_B8G8R8A8_UINT => 48,
            VkFormat::VK_FORMAT_B8G8R8A8_SINT => 49,
            VkFormat::VK_FORMAT_B8G8R8A8_SRGB => 50,
            VkFormat::VK_FORMAT_A8B8G8R8_UNORM_PACK32 => 51,
            VkFormat::VK_FORMAT_A8B8G8R8_SNORM_PACK32 => 52,
            VkFormat::VK_FORMAT_A8B8G8R8_USCALED_PACK32 => 53,
            VkFormat::VK_FORMAT_A8B8G8R8_SSCALED_PACK32 => 54,
            VkFormat::VK_FORMAT_A8B8G8R8_UINT_PACK32 => 55,
            VkFormat::VK_FORMAT_A8B8G8R8_SINT_PACK32 => 56,
            VkFormat::VK_FORMAT_A8B8G8R8_SRGB_PACK32 => 57,
            VkFormat::VK_FORMAT_A2R10G10B10_UNORM_PACK32 => 58,
            VkFormat::VK_FORMAT_A2R10G10B10_SNORM_PACK32 => 59,
            VkFormat::VK_FORMAT_A2R10G10B10_USCALED_PACK32 => 60,
            VkFormat::VK_FORMAT_A2R10G10B10_SSCALED_PACK32 => 61,
            VkFormat::VK_FORMAT_A2R10G10B10_UINT_PACK32 => 62,
            VkFormat::VK_FORMAT_A2R10G10B10_SINT_PACK32 => 63,
            VkFormat::VK_FORMAT_A2B10G10R10_UNORM_PACK32 => 64,
            VkFormat::VK_FORMAT_A2B10G10R10_SNORM_PACK32 => 65,
            VkFormat::VK_FORMAT_A2B10G10R10_USCALED_PACK32 => 66,
            VkFormat::VK_FORMAT_A2B10G10R10_SSCALED_PACK32 => 67,
            VkFormat::VK_FORMAT_A2B10G10R10_UINT_PACK32 => 68,
            VkFormat::VK_FORMAT_A2B10G10R10_SINT_PACK32 => 69,
            VkFormat::VK_FORMAT_R16_UNORM => 70,
            VkFormat::VK_FORMAT_R16_SNORM => 71,
            VkFormat::VK_FORMAT_R16_USCALED => 72,
            VkFormat::VK_FORMAT_R16_SSCALED => 73,
            VkFormat::VK_FORMAT_R16_UINT => 74,
            VkFormat::VK_FORMAT_R16_SINT => 75,
            VkFormat::VK_FORMAT_R16_SFLOAT => 76,
            VkFormat::VK_FORMAT_R16G16_UNORM => 77,
            VkFormat::VK_FORMAT_R16G16_SNORM => 78,
            VkFormat::VK_FORMAT_R16G16_USCALED => 79,
            VkFormat::VK_FORMAT_R16G16_SSCALED => 80,
            VkFormat::VK_FORMAT_R16G16_UINT => 81,
            VkFormat::VK_FORMAT_R16G16_SINT => 82,
            VkFormat::VK_FORMAT_R16G16_SFLOAT => 83,
            VkFormat::VK_FORMAT_R16G16B16_UNORM => 84,
            VkFormat::VK_FORMAT_R16G16B16_SNORM => 85,
            VkFormat::VK_FORMAT_R16G16B16_USCALED => 86,
            VkFormat::VK_FORMAT_R16G16B16_SSCALED => 87,
            VkFormat::VK_FORMAT_R16G16B16_UINT => 88,
            VkFormat::VK_FORMAT_R16G16B16_SINT => 89,
            VkFormat::VK_FORMAT_R16G16B16_SFLOAT => 90,
            VkFormat::VK_FORMAT_R16G16B16A16_UNORM => 91,
            VkFormat::VK_FORMAT_R16G16B16A16_SNORM => 92,
            VkFormat::VK_FORMAT_R16G16B16A16_USCALED => 93,
            VkFormat::VK_FORMAT_R16G16B16A16_SSCALED => 94,
            VkFormat::VK_FORMAT_R16G16B16A16_UINT => 95,
            VkFormat::VK_FORMAT_R16G16B16A16_SINT => 96,
            VkFormat::VK_FORMAT_R16G16B16A16_SFLOAT => 97,
            VkFormat::VK_FORMAT_R32_UINT => 98,
            VkFormat::VK_FORMAT_R32_SINT => 99,
            VkFormat::VK_FORMAT_R32_SFLOAT => 100,
            VkFormat::VK_FORMAT_R32G32_UINT => 101,
            VkFormat::VK_FORMAT_R32G32_SINT => 102,
            VkFormat::VK_FORMAT_R32G32_SFLOAT => 103,
            VkFormat::VK_FORMAT_R32G32B32_UINT => 104,
            VkFormat::VK_FORMAT_R32G32B32_SINT => 105,
            VkFormat::VK_FORMAT_R32G32B32_SFLOAT => 106,
            VkFormat::VK_FORMAT_R32G32B32A32_UINT => 107,
            VkFormat::VK_FORMAT_R32G32B32A32_SINT => 108,
            VkFormat::VK_FORMAT_R32G32B32A32_SFLOAT => 109,
            VkFormat::VK_FORMAT_R64_UINT => 110,
            VkFormat::VK_FORMAT_R64_SINT => 111,
            VkFormat::VK_FORMAT_R64_SFLOAT => 112,
            VkFormat::VK_FORMAT_R64G64_UINT => 113,
            VkFormat::VK_FORMAT_R64G64_SINT => 114,
            VkFormat::VK_FORMAT_R64G64_SFLOAT => 115,
            VkFormat::VK_FORMAT_R64G64B64_UINT => 116,
            VkFormat::VK_FORMAT_R64G64B64_SINT => 117,
            VkFormat::VK_FORMAT_R64G64B64_SFLOAT => 118,
            VkFormat::VK_FORMAT_R64G64B64A64_UINT => 119,
            VkFormat::VK_FORMAT_R64G64B64A64_SINT => 120,
            VkFormat::VK_FORMAT_R64G64B64A64_SFLOAT => 121,
            VkFormat::VK_FORMAT_B10G11R11_UFLOAT_PACK32 => 122,
            VkFormat::VK_FORMAT_E5B9G9R9_UFLOAT_PACK32 => 123,
            VkFormat::VK_FORMAT_D16_UNORM => 124,
            VkFormat::VK_FORMAT_X8_D24_UNORM_PACK32 => 125,
            VkFormat::VK_FORMAT_D32_SFLOAT => 126,
            VkFormat::VK_FORMAT_S8_UINT => 127,
            VkFormat::VK_FORMAT_D16_UNORM_S8_UINT => 128,
            VkFormat::VK_FORMAT_D24_UNORM_S8_UINT => 129,
            VkFormat::VK_FORMAT_D32_SFLOAT_S8_UINT => 130,
            VkFormat::VK_FORMAT_BC1_RGB_UNORM_BLOCK => 131,
            VkFormat::VK_FORMAT_BC1_RGB_SRGB_BLOCK => 132,
            VkFormat::VK_FORMAT_BC1_RGBA_UNORM_BLOCK => 133,
            VkFormat::VK_FORMAT_BC1_RGBA_SRGB_BLOCK => 134,
            VkFormat::VK_FORMAT_BC2_UNORM_BLOCK => 135,
            VkFormat::VK_FORMAT_BC2_SRGB_BLOCK => 136,
            VkFormat::VK_FORMAT_BC3_UNORM_BLOCK => 137,
            VkFormat::VK_FORMAT_BC3_SRGB_BLOCK => 138,
            VkFormat::VK_FORMAT_BC4_UNORM_BLOCK => 139,
            VkFormat::VK_FORMAT_BC4_SNORM_BLOCK => 140,
            VkFormat::VK_FORMAT_BC5_UNORM_BLOCK => 141,
            VkFormat::VK_FORMAT_BC5_SNORM_BLOCK => 142,
            VkFormat::VK_FORMAT_BC6H_UFLOAT_BLOCK => 143,
            VkFormat::VK_FORMAT_BC6H_SFLOAT_BLOCK => 144,
            VkFormat::VK_FORMAT_BC7_UNORM_BLOCK => 145,
            VkFormat::VK_FORMAT_BC7_SRGB_BLOCK => 146,
            VkFormat::VK_FORMAT_ETC2_R8G8B8_UNORM_BLOCK => 147,
            VkFormat::VK_FORMAT_ETC2_R8G8B8_SRGB_BLOCK => 148,
            VkFormat::VK_FORMAT_ETC2_R8G8B8A1_UNORM_BLOCK => 149,
            VkFormat::VK_FORMAT_ETC2_R8G8B8A1_SRGB_BLOCK => 150,
            VkFormat::VK_FORMAT_ETC2_R8G8B8A8_UNORM_BLOCK => 151,
            VkFormat::VK_FORMAT_ETC2_R8G8B8A8_SRGB_BLOCK => 152,
            VkFormat::VK_FORMAT_EAC_R11_UNORM_BLOCK => 153,
            VkFormat::VK_FORMAT_EAC_R11_SNORM_BLOCK => 154,
            VkFormat::VK_FORMAT_EAC_R11G11_UNORM_BLOCK => 155,
            VkFormat::VK_FORMAT_EAC_R11G11_SNORM_BLOCK => 156,
            VkFormat::VK_FORMAT_ASTC_4x4_UNORM_BLOCK => 157,
            VkFormat::VK_FORMAT_ASTC_4x4_SRGB_BLOCK => 158,
            VkFormat::VK_FORMAT_ASTC_5x4_UNORM_BLOCK => 159,
            VkFormat::VK_FORMAT_ASTC_5x4_SRGB_BLOCK => 160,
            VkFormat::VK_FORMAT_ASTC_5x5_UNORM_BLOCK => 161,
            VkFormat::VK_FORMAT_ASTC_5x5_SRGB_BLOCK => 162,
            VkFormat::VK_FORMAT_ASTC_6x5_UNORM_BLOCK => 163,
            VkFormat::VK_FORMAT_ASTC_6x5_SRGB_BLOCK => 164,
            VkFormat::VK_FORMAT_ASTC_6x6_UNORM_BLOCK => 165,
            VkFormat::VK_FORMAT_ASTC_6x6_SRGB_BLOCK => 166,
            VkFormat::VK_FORMAT_ASTC_8x5_UNORM_BLOCK => 167,
            VkFormat::VK_FORMAT_ASTC_8x5_SRGB_BLOCK => 168,
            VkFormat::VK_FORMAT_ASTC_8x6_UNORM_BLOCK => 169,
            VkFormat::VK_FORMAT_ASTC_8x6_SRGB_BLOCK => 170,
            VkFormat::VK_FORMAT_ASTC_8x8_UNORM_BLOCK => 171,
            VkFormat::VK_FORMAT_ASTC_8x8_SRGB_BLOCK => 172,
            VkFormat::VK_FORMAT_ASTC_10x5_UNORM_BLOCK => 173,
            VkFormat::VK_FORMAT_ASTC_10x5_SRGB_BLOCK => 174,
            VkFormat::VK_FORMAT_ASTC_10x6_UNORM_BLOCK => 175,
            VkFormat::VK_FORMAT_ASTC_10x6_SRGB_BLOCK => 176,
            VkFormat::VK_FORMAT_ASTC_10x8_UNORM_BLOCK => 177,
            VkFormat::VK_FORMAT_ASTC_10x8_SRGB_BLOCK => 178,
            VkFormat::VK_FORMAT_ASTC_10x10_UNORM_BLOCK => 179,
            VkFormat::VK_FORMAT_ASTC_10x10_SRGB_BLOCK => 180,
            VkFormat::VK_FORMAT_ASTC_12x10_UNORM_BLOCK => 181,
            VkFormat::VK_FORMAT_ASTC_12x10_SRGB_BLOCK => 182,
            VkFormat::VK_FORMAT_ASTC_12x12_UNORM_BLOCK => 183,
            VkFormat::VK_FORMAT_ASTC_12x12_SRGB_BLOCK => 184,
            VkFormat::VK_FORMAT_PVRTC1_2BPP_UNORM_BLOCK_IMG => 1000054000,
            VkFormat::VK_FORMAT_PVRTC1_4BPP_UNORM_BLOCK_IMG => 1000054001,
            VkFormat::VK_FORMAT_PVRTC2_2BPP_UNORM_BLOCK_IMG => 1000054002,
            VkFormat::VK_FORMAT_PVRTC2_4BPP_UNORM_BLOCK_IMG => 1000054003,
            VkFormat::VK_FORMAT_PVRTC1_2BPP_SRGB_BLOCK_IMG => 1000054004,
            VkFormat::VK_FORMAT_PVRTC1_4BPP_SRGB_BLOCK_IMG => 1000054005,
            VkFormat::VK_FORMAT_PVRTC2_2BPP_SRGB_BLOCK_IMG => 1000054006,
            VkFormat::VK_FORMAT_PVRTC2_4BPP_SRGB_BLOCK_IMG => 1000054007,
        }
    }
}

#[derive(Clone, Copy, Debug, PartialEq, Eq, Hash)]
pub enum VkImageType {
    VK_IMAGE_TYPE_1D,
    VK_IMAGE_TYPE_2D,
    VK_IMAGE_TYPE_3D,
}

impl VkImageType {
    /// The number that stands for the variant in the native interface.
    pub open spec fn spec_value(&self) -> i32 {
        match self {
            VkImageType::VK_IMAGE_TYPE_1D => 0i32,
            VkImageType::VK_IMAGE_TYPE_2D => 1i32,
            VkImageType::VK_IMAGE_TYPE_3D => 2i32,
        }
    }

    #[verifier::when_used_as_spec(spec_value)]
    pub fn value(&self) -> (value: i32)
        ensures
            value == self.spec_value(),
    {
        match self {
            VkImageType::VK_IMAGE_TYPE_1D => 0,
            VkImageType::VK_IMAGE_TYPE_2D => 1,
            VkImageType::VK_IMAGE_TYPE_3D => 2,
        }
    }
}

#[derive(Clone, Copy, Debug, PartialEq, Eq, Hash)]
pub enum VkImageTiling {
    VK_IMAGE_TILING_OPTIMAL,
    VK_IMAGE_TILING_LINEAR,
}

impl VkImageTiling {
    /// The number that stands for the variant in the native interface.
    pub open spec fn spec_value(&self) -> i32 {
        match self {
            VkImageTiling::VK_IMAGE_TILING_OPTIMAL => 0i32,
            VkImageTiling::VK_IMAGE_TILING_LINEAR => 1i32,
        }
    }

    #[verifier::when_used_as_spec(spec_value)]
    pub fn value(&self) -> (value: i32)
        ensures
            value == self.spec_value(),
    {
        match self {
            VkImageTiling::VK_IMAGE_TILING_OPTIMAL => 0,
            VkImageTiling::VK_IMAGE_TILING_LINEAR => 1,
        }
    }
}

#[derive(Clone, Copy, Debug, PartialEq, Eq, Hash)]
pub enum VkPhysicalDeviceType {
    VK_PHYSICAL_DEVICE_TYPE_OTHER,
    VK_PHYSICAL_DEVICE_TYPE_INTEGRATED_GPU,
    VK_PHYSICAL_DEVICE_TYPE_DISCRETE_GPU,
    VK_PHYSICAL_DEVICE_TYPE_VIRTUAL_GPU,
    VK_PHYSICAL_DEVICE_TYPE_CPU,
}

impl VkPhysicalDeviceType {
    /// The number that stands for the variant in the native interface.
    pub open spec fn spec_value(&self) -> i32 {
        match self {
            VkPhysicalDeviceType::VK_PHYSICAL_DEVICE_TYPE_OTHER => 0i32,
            VkPhysicalDeviceType::VK_PHYSICAL_DEVICE_TYPE_INTEGRATED_GPU => 1i32,
            VkPhysicalDeviceType::VK_PHYSICAL_DEVICE_TYPE_DISCRETE_GPU => 2i32,
            VkPhysicalDeviceType::VK_PHYSICAL_DEVICE_TYPE_VIRTUAL_GPU => 3i32,
            VkPhysicalDeviceType::VK_PHYSICAL_DEVICE_TYPE_CPU => 4i32,
        }
    }

    #[verifier::when_used_as_spec(spec_value)]
    pub fn value(&self) -> (value: i32)
        ensures
            value == self.spec_value(),
    {
        match self {
            VkPhysicalDeviceType::VK_PHYSICAL_DEVICE_TYPE_OTHER => 0,
            VkPhysicalDeviceType::VK_PHYSICAL_DEVICE_TYPE_INTEGRATED_GPU => 1,
            VkPhysicalDeviceType::VK_PHYSICAL_DEVICE_TYPE_DISCRETE_GPU => 2,
            VkPhysicalDeviceType::VK_PHYSICAL_DEVICE_TYPE_VIRTUAL_GPU => 3,
            VkPhysicalDeviceType::VK_PHYSICAL_DEVICE_TYPE_CPU => 4,
        }
    }
}

#[derive(Clone, Copy, Debug, PartialEq, Eq, Hash)]
pub enum VkQueryType {
    VK_QUERY_TYPE_OCCLUSION,
    VK_QUERY_TYPE_PIPELINE_STATISTICS,
    VK_QUERY_TYPE_TIMESTAMP,
}

impl VkQueryType {
    /// The number that stands for the variant in the native interface.
    pub open spec fn spec_value(&self) -> i32 {
        match self {
            VkQueryType::VK_QUERY_TYPE_OCCLUSION => 0i32,
            VkQueryType::VK_QUERY_TYPE_PIPELINE_STATISTICS => 1i32,
            VkQueryType::VK_QUERY_TYPE_TIMESTAMP => 2i32,
        }
    }

    #[verifier::when_used_as_spec(spec_value)]
    pub fn value(&self) -> (value: i32)
        ensures
            value == self.spec_value(),
    {
        match self {
            VkQueryType::VK_QUERY_TYPE_OCCLUSION => 0,
            VkQueryType::VK_QUERY_TYPE_PIPELINE_STATISTICS => 1,
            VkQueryType::VK_QUERY_TYPE_TIMESTAMP => 2,
        }
    }
}

#[derive(Clone, Copy, Debug, PartialEq, Eq, Hash)]
pub enum VkSharingMode {
    VK_SHARING_MODE_EXCLUSIVE,
    VK_SHARING_MODE_CONCURRENT,
}

impl VkSharingMode {
    /// The number that stands for the variant in the native interface.
    pub open spec fn spec_value(&self) -> i32 {
        match self {
            VkSharingMode::VK_SHARING_MODE_EXCLUSIVE => 0i32,
            VkSharingMode::VK_SHARING_MODE_CONCURRENT => 1i32,
        }
    }

    #[verifier::when_used_as_spec(spec_value)]
    pub fn value(&self) -> (value: i32)
        ensures
            value == self.spec_value(),
    {
        match self {
            VkSharingMode::VK_SHARING_MODE_EXCLUSIVE => 0,
            VkSharingMode::VK_SHARING_MODE_CONCURRENT => 1,
        }
    }
}

#[derive(Clone, Copy, Debug, PartialEq, Eq, Hash)]
pub enum VkImageLayout {
    VK_IMAGE_LAYOUT_UNDEFINED,
    VK_IMAGE_LAYOUT_GENERAL,
    VK_IMAGE_LAYOUT_COLOR_ATTACHMENT_OPTIMAL,
    VK_IMAGE_LAYOUT_DEPTH_STENCIL_ATTACHMENT_OPTIMAL,
    VK_IMAGE_LAYOUT_DEPTH_STENCIL_READ_ONLY_OPTIMAL,
    VK_IMAGE_LAYOUT_SHADER_READ_ONLY_OPTIMAL,
    VK_IMAGE_LAYOUT_TRANSFER_SRC_OPTIMAL,
    VK_IMAGE_LAYOUT_TRANSFER_DST_OPTIMAL,
    VK_IMAGE_LAYOUT_PREINITIALIZED,
    VK_IMAGE_LAYOUT_PRESENT_SRC_KHR,
}

impl VkImageLayout {
    /// The number that stands for the variant in the native interface.
    pub open spec fn spec_value(&self) -> i32 {
        match self {
            VkImageLayout::VK_IMAGE_LAYOUT_UNDEFINED => 0i32,
            VkImageLayout::VK_IMAGE_LAYOUT_GENERAL => 1i32,
            VkImageLayout::VK_IMAGE_LAYOUT_COLOR_ATTACHMENT_OPTIMAL => 2i32,
            VkImageLayout::VK_IMAGE_LAYOUT_DEPTH_STENCIL_ATTACHMENT_OPTIMAL => 3i32,
            VkImageLayout::VK_IMAGE_LAYOUT_DEPTH_STENCIL_READ_ONLY_OPTIMAL => 4i32,
            VkImageLayout::VK_IMAGE_LAYOUT_SHADER_READ_ONLY_OPTIMAL => 5i32,
            VkImageLayout::VK_IMAGE_LAYOUT_TRANSFER_SRC_OPTIMAL => 6i32,
            VkImageLayout::VK_IMAGE_LAYOUT_TRANSFER_DST_OPTIMAL => 7i32,
            VkImageLayout::VK_IMAGE_LAYOUT_PREINITIALIZED => 8i32,
            VkImageLayout::VK_IMAGE_LAYOUT_PRESENT_SRC_KHR => 1000001002i32,
        }
    }

    #[verifier::when_used_as_spec(spec_value)]
    pub fn value(&self) -> (value: i32)
        ensures
            value == self.spec_value(),
    {
        match self {
            VkImageLayout::VK_IMAGE_LAYOUT_UNDEFINED => 0,
            VkImageLayout::VK_IMAGE_LAYOUT_GENERAL => 1,
            VkImageLayout::VK_IMAGE_LAYOUT_COLOR_ATTACHMENT_OPTIMAL => 2,
            VkImageLayout::VK_IMAGE_LAYOUT_DEPTH_STENCIL_ATTACHMENT_OPTIMAL => 3,
            VkImageLayout::VK_IMAGE_LAYOUT_DEPTH_STENCIL_READ_ONLY_OPTIMAL => 4,
            VkImageLayout::VK_IMAGE_LAYOUT_SHADER_READ_ONLY_OPTIMAL => 5,
            VkImageLayout::VK_IMAGE_LAYOUT_TRANSFER_SRC_OPTIMAL => 6,
            VkImageLayout::VK_IMAGE_LAYOUT_TRANSFER_DST_OPTIMAL => 7,
            VkImageLayout::VK_IMAGE_LAYOUT_PREINITIALIZED => 8,
            VkImageLayout::VK_IMAGE_LAYOUT_PRESENT_SRC_KHR => 1000001002,
        }
    }
}

#[derive(Clone, Copy, Debug, PartialEq, Eq, Hash)]
pub enum VkImageViewType {
    VK_IMAGE_VIEW_TYPE_1D,
    VK_IMAGE_VIEW_TYPE_2D,
    VK_IMAGE_VIEW_TYPE_3D,
    VK_IMAGE_VIEW_TYPE_CUBE,
    VK_IMAGE_VIEW_TYPE_1D_ARRAY,
    VK_IMAGE_VIEW_TYPE_2D_ARRAY,
    VK_IMAGE_VIEW_TYPE_CUBE_ARRAY,
}

impl VkImageViewType {
    /// The number that stands for the variant in the native interface.
    pub open spec fn spec_value(&self) -> i32 {
        match self {
            VkImageViewType::VK_IMAGE_VIEW_TYPE_1D => 0i32,
            VkImageViewType::VK_IMAGE_VIEW_TYPE_2D => 1i32,
            VkImageViewType::VK_IMAGE_VIEW_TYPE_3D => 2i32,
            VkImageViewType::VK_IMAGE_VIEW_TYPE_CUBE => 3i32,
            VkImageViewType::VK_IMAGE_VIEW_TYPE_1D_ARRAY => 4i32,
            VkImageViewType::VK_IMAGE_VIEW_TYPE_2D_ARRAY => 5i32,
            VkImageViewType::VK_IMAGE_VIEW_TYPE_CUBE_ARRAY => 6i32,
        }
    }

    #[verifier::when_used_as_spec(spec_value)]
    pub fn value(&self) -> (value: i32)
        ensures
            value == self.spec_value(),
    {
        match self {
            VkImageViewType::VK_IMAGE_VIEW_TYPE_1D => 0,
            VkImageViewType::VK_IMAGE_VIEW_TYPE_2D => 1,
            VkImageViewType::VK_IMAGE_VIEW_TYPE_3D => 2,
            VkImageViewType::VK_IMAGE_VIEW_TYPE_CUBE => 3,
            VkImageViewType::VK_IMAGE_VIEW_TYPE_1D_ARRAY => 4,
            VkImageViewType::VK_IMAGE_VIEW_TYPE_2D_ARRAY => 5,
            VkImageViewType::VK_IMAGE_VIEW_TYPE_CUBE_ARRAY => 6,
        }
    }
}

#[derive(Clone, Copy, Debug, PartialEq, Eq, Hash)]
pub enum VkComponentSwizzle {
    VK_COMPONENT_SWIZZLE_IDENTITY,
    VK_COMPONENT_SWIZZLE_ZERO,
    VK_COMPONENT_SWIZZLE_ONE,
    VK_COMPONENT_SWIZZLE_R,
    VK_COMPONENT_SWIZZLE_G,
    VK_COMPONENT_SWIZZLE_B,
    VK_COMPONENT_SWIZZLE_A,
}

impl VkComponentSwizzle {
    /// The number that stands for the variant in the native interface.
    pub open spec fn spec_value(&self) -> i32 {
        match self {
            VkComponentSwizzle::VK_COMPONENT_SWIZZLE_IDENTITY => 0i32,
            VkComponentSwizzle::VK_COMPONENT_SWIZZLE_ZERO => 1i32,
            VkComponentSwizzle::VK_COMPONENT_SWIZZLE_ONE => 2i32,
            VkComponentSwizzle::VK_COMPONENT_SWIZZLE_R => 3i32,
            VkComponentSwizzle::VK_COMPONENT_SWIZZLE_G => 4i32,
            VkComponentSwizzle::VK_COMPONENT_SWIZZLE_B => 5i32,
            VkComponentSwizzle::VK_COMPONENT_SWIZZLE_A => 6i32,
        }
    }

    #[verifier::when_used_as_spec(spec_value)]
    pub fn value(&self) -> (value: i32)
        ensures
            value == self.spec_value(),
    {
        match self {
            VkComponentSwizzle::VK_COMPONENT_SWIZZLE_IDENTITY => 0,
            VkComponentSwizzle::VK_COMPONENT_SWIZZLE_ZERO => 1,
            VkComponentSwizzle::VK_COMPONENT_SWIZZLE_ONE => 2,
            VkComponentSwizzle::VK_COMPONENT_SWIZZLE_R => 3,
            VkComponentSwizzle::VK_COMPONENT_SWIZZLE_G => 4,
            VkComponentSwizzle::VK_COMPONENT_SWIZZLE_B => 5,
            VkComponentSwizzle::VK_COMPONENT_SWIZZLE_A => 6,
        }
    }
}

#[derive(Clone, Copy, Debug, PartialEq, Eq, Hash)]
pub enum VkVertexInputRate {
    VK_VERTEX_INPUT_RATE_VERTEX,
    VK_VERTEX_INPUT_RATE_INSTANCE,
}

impl VkVertexInputRate {
    /// The number that stands for the variant in the native interface.
    pub open spec fn spec_value(&self) -> i32 {
        match self {
            VkVertexInputRate::VK_VERTEX_INPUT_RATE_VERTEX => 0i32,
            VkVertexInputRate::VK_VERTEX_INPUT_RATE_INSTANCE => 1i32,
        }
    }

    #[verifier::when_used_as_spec(spec_value)]
    pub fn value(&self) -> (value: i32)
        ensures
            value == self.spec_value(),
    {
        match self {
            VkVertexInputRate::VK_VERTEX_INPUT_RATE_VERTEX => 0,
            VkVertexInputRate::VK_VERTEX_INPUT_RATE_INSTANCE => 1,
        }
    }
}

#[derive(Clone, Copy, Debug, PartialEq, Eq, Hash)]
pub enum VkPrimitiveTopology {
    VK_PRIMITIVE_TOPOLOGY_POINT_LIST,
    VK_PRIMITIVE_TOPOLOGY_LINE_LIST,
    VK_PRIMITIVE_TOPOLOGY_LINE_STRIP,
    VK_PRIMITIVE_TOPOLOGY_TRIANGLE_LIST,
    VK_PRIMITIVE_TOPOLOGY_TRIANGLE_STRIP,
    VK_PRIMITIVE_TOPOLOGY_TRIANGLE_FAN,
    VK_PRIMITIVE_TOPOLOGY_LINE_LIST_WITH_ADJACENCY,
    VK_PRIMITIVE_TOPOLOGY_LINE_STRIP_WITH_ADJACENCY,
    VK_PRIMITIVE_TOPOLOGY_TRIANGLE_LIST_WITH_ADJACENCY,
    VK_PRIMITIVE_TOPOLOGY_TRIANGLE_STRIP_WITH_ADJACENCY,
    VK_PRIMITIVE_TOPOLOGY_PATCH_LIST,
}

impl VkPrimitiveTopology {
    /// The number that stands for the variant in the native interface.
    pub open spec fn spec_value(&self) -> i32 {
        match self {
            VkPrimitiveTopology::VK_PRIMITIVE_TOPOLOGY_POINT_LIST => 0i32,
            VkPrimitiveTopology::VK_PRIMITIVE_TOPOLOGY_LINE_LIST => 1i32,
            VkPrimitiveTopology::VK_PRIMITIVE_TOPOLOGY_LINE_STRIP => 2i32,
            VkPrimitiveTopology::VK_PRIMITIVE_TOPOLOGY_TRIANGLE_LIST => 3i32,
            VkPrimitiveTopology::VK_PRIMITIVE_TOPOLOGY_TRIANGLE_STRIP => 4i32,
            VkPrimitiveTopology::VK_PRIMITIVE_TOPOLOGY_TRIANGLE_FAN => 5i32,
            VkPrimitiveTopology::VK_PRIMITIVE_TOPOLOGY_LINE_LIST_WITH_ADJACENCY => 6i32,
            VkPrimitiveTopology::VK_PRIMITIVE_TOPOLOGY_LINE_STRIP_WITH_ADJACENCY => 7i32,
            VkPrimitiveTopology::VK_PRIMITIVE_TOPOLOGY_TRIANGLE_LIST_WITH_ADJACENCY => 8i32,
            VkPrimitiveTopology::VK_PRIMITIVE_TOPOLOGY_TRIANGLE_STRIP_WITH_ADJACENCY => 9i32,
            VkPrimitiveTopology::VK_PRIMITIVE_TOPOLOGY_PATCH_LIST => 10i32,
        }
    }

    #[verifier::when_used_as_spec(spec_value)]
    pub fn value(&self) -> (value: i32)
        ensures
            value == self.spec_value(),
    {
        match self {
            VkPrimitiveTopology::VK_PRIMITIVE_TOPOLOGY_POINT_LIST => 0,
            VkPrimitiveTopology::VK_PRIMITIVE_TOPOLOGY_LINE_LIST => 1,
            VkPrimitiveTopology::VK_PRIMITIVE_TOPOLOGY_LINE_STRIP => 2,
            VkPrimitiveTopology::VK_PRIMITIVE_TOPOLOGY_TRIANGLE_LIST => 3,
            VkPrimitiveTopology::VK_PRIMITIVE_TOPOLOGY_TRIANGLE_STRIP => 4,
            VkPrimitiveTopology::VK_PRIMITIVE_TOPOLOGY_TRIANGLE_FAN => 5,
            VkPrimitiveTopology::VK_PRIMITIVE_TOPOLOGY_LINE_LIST_WITH_ADJACENCY => 6,
            VkPrimitiveTopology::VK_PRIMITIVE_TOPOLOGY_LINE_STRIP_WITH_ADJACENCY => 7,
            VkPrimitiveTopology::VK_PRIMITIVE_TOPOLOGY_TRIANGLE_LIST_WITH_ADJACENCY => 8,
            VkPrimitiveTopology::VK_PRIMITIVE_TOPOLOGY_TRIANGLE_STRIP_WITH_ADJACENCY => 9,
            VkPrimitiveTopology::VK_PRIMITIVE_TOPOLOGY_PATCH_LIST => 10,
        }
    }
}

#[derive(Clone, Copy, Debug, PartialEq, Eq, Hash)]
pub enum VkPolygonMode {
    VK_POLYGON_MODE_FILL,
    VK_POLYGON_MODE_LINE,
    VK_POLYGON_MODE_POINT,
}

impl VkPolygonMode {
    /// The number that stands for the variant in the native interface.
    pub open spec fn spec_value(&self) -> i32 {
        match self {
            VkPolygonMode::VK_POLYGON_MODE_FILL => 0i32,
            VkPolygonMode::VK_POLYGON_MODE_LINE => 1i32,
            VkPolygonMode::VK_POLYGON_MODE_POINT => 2i32,
        }
    }

    #[verifier::when_used_as_spec(spec_value)]
    pub fn value(&self) -> (value: i32)
        ensures
            value == self.spec_value(),
    {
        match self {
            VkPolygonMode::VK_POLYGON_MODE_FILL => 0,
            VkPolygonMode::VK_POLYGON_MODE_LINE => 1,
            VkPolygonMode::VK_POLYGON_MODE_POINT => 2,
        }
    }
}

#[derive(Clone, Copy, Debug, PartialEq, Eq, Hash)]
pub enum VkFrontFace {
    VK_FRONT_FACE_COUNTER_CLOCKWISE,
    VK_FRONT_FACE_CLOCKWISE,
}

impl VkFrontFace {
    /// The number that stands for the variant in the native interface.
    pub open spec fn spec_value(&self) -> i32 {
        match self {
            VkFrontFace::VK_FRONT_FACE_COUNTER_CLOCKWISE => 0i32,
            VkFrontFace::VK_FRONT_FACE_CLOCKWISE => 1i32,
        }
    }

    #[verifier::when_used_as_spec(spec_value)]
    pub fn value(&self) -> (value: i32)
        ensures
            value == self.spec_value(),
    {
        match self {
            VkFrontFace::VK_FRONT_FACE_COUNTER_CLOCKWISE => 0,
            VkFrontFace::VK_FRONT_FACE_CLOCKWISE => 1,
        }
    }
}

#[derive(Clone, Copy, Debug, PartialEq, Eq, Hash)]
pub enum VkCompareOp {
    VK_COMPARE_OP_NEVER,
    VK_COMPARE_OP_LESS,
    VK_COMPARE_OP_EQUAL,
    VK_COMPARE_OP_LESS_OR_EQUAL,
    VK_COMPARE_OP_GREATER,
    VK_COMPARE_OP_NOT_EQUAL,
    VK_COMPARE_OP_GREATER_OR_EQUAL,
    VK_COMPARE_OP_ALWAYS,
}

impl VkCompareOp {
    /// The number that stands for the variant in the native interface.
    pub open spec fn spec_value(&self) -> i32 {
        match self {
            VkCompareOp::VK_COMPARE_OP_NEVER => 0i32,
            VkCompareOp::VK_COMPARE_OP_LESS => 1i32,
            VkCompareOp::VK_COMPARE_OP_EQUAL => 2i32,
            VkCompareOp::VK_COMPARE_OP_LESS_OR_EQUAL => 3i32,
            VkCompareOp::VK_COMPARE_OP_GREATER => 4i32,
            VkCompareOp::VK_COMPARE_OP_NOT_EQUAL => 5i32,
            VkCompareOp::VK_COMPARE_OP_GREATER_OR_EQUAL => 6i32,
            VkCompareOp::VK_COMPARE_OP_ALWAYS => 7i32,
        }
    }

    #[verifier::when_used_as_spec(spec_value)]
    pub fn value(&self) -> (value: i32)
        ensures
            value == self.spec_value(),
    {
        match self {
            VkCompareOp::VK_COMPARE_OP_NEVER => 0,
            VkCompareOp::VK_COMPARE_OP_LESS => 1,
            VkCompareOp::VK_COMPARE_OP_EQUAL => 2,
            VkCompareOp::VK_COMPARE_OP_LESS_OR_EQUAL => 3,
            VkCompareOp::VK_COMPARE_OP_GREATER => 4,
            VkCompareOp::VK_COMPARE_OP_NOT_EQUAL => 5,
            VkCompareOp::VK_COMPARE_OP_GREATER_OR_EQUAL => 6,
            VkCompareOp::VK_COMPARE_OP_ALWAYS => 7,
        }
    }
}

#[derive(Clone, Copy, Debug, PartialEq, Eq, Hash)]
pub enum VkStencilOp {
    VK_STENCIL_OP_KEEP,
    VK_STENCIL_OP_ZERO,
    VK_STENCIL_OP_REPLACE,
    VK_STENCIL_OP_INCREMENT_AND_CLAMP,
    VK_STENCIL_OP_DECREMENT_AND_CLAMP,
    VK_STENCIL_OP_INVERT,
    VK_STENCIL_OP_INCREMENT_AND_WRAP,
    VK_STENCIL_OP_DECREMENT_AND_WRAP,
}

impl VkStencilOp {
    /// The number that stands for the variant in the native interface.
    pub open spec fn spec_value(&self) -> i32 {
        match self {
            VkStencilOp::VK_STENCIL_OP_KEEP => 0i32,
            VkStencilOp::VK_STENCIL_OP_ZERO => 1i32,
            VkStencilOp::VK_STENCIL_OP_REPLACE => 2i32,
            VkStencilOp::VK_STENCIL_OP_INCREMENT_AND_CLAMP => 3i32,
            VkStencilOp::VK_STENCIL_OP_DECREMENT_AND_CLAMP => 4i32,
            VkStencilOp::VK_STENCIL_OP_INVERT => 5i32,
            VkStencilOp::VK_STENCIL_OP_INCREMENT_AND_WRAP => 6i32,
            VkStencilOp::VK_STENCIL_OP_DECREMENT_AND_WRAP => 7i32,
        }
    }

    #[verifier::when_used_as_spec(spec_value)]
    pub fn value(&self) -> (value: i32)
        ensures
            value == self.spec_value(),
    {
        match self {
            VkStencilOp::VK_STENCIL_OP_KEEP => 0,
            VkStencilOp::VK_STENCIL_OP_ZERO => 1,
            VkStencilOp::VK_STENCIL_OP_REPLACE => 2,
            VkStencilOp::VK_STENCIL_OP_INCREMENT_AND_CLAMP => 3,
            VkStencilOp::VK_STENCIL_OP_DECREMENT_AND_CLAMP => 4,
            VkStencilOp::VK_STENCIL_OP_INVERT => 5,
            VkStencilOp::VK_STENCIL_OP_INCREMENT_AND_WRAP => 6,
            VkStencilOp::VK_STENCIL_OP_DECREMENT_AND_WRAP => 7,
        }
    }
}

#[derive(Clone, Copy, Debug, PartialEq, Eq, Hash)]
pub enum VkLogicOp {
    VK_LOGIC_OP_CLEAR,
    VK_LOGIC_OP_AND,
    VK_LOGIC_OP_AND_REVERSE,
    VK_LOGIC_OP_COPY,
    VK_LOGIC_OP_AND_INVERTED,
    VK_LOGIC_OP_NO_OP,
    VK_LOGIC_OP_XOR,
    VK_LOGIC_OP_OR,
    VK_LOGIC_OP_NOR,
    VK_LOGIC_OP_EQUIVALENT,
    VK_LOGIC_OP_INVERT,
    VK_LOGIC_OP_OR_REVERSE,
    VK_LOGIC_OP_COPY_INVERTED,
    VK_LOGIC_OP_OR_INVERTED,
    VK_LOGIC_OP_NAND,
    VK_LOGIC_OP_SET,
}

impl VkLogicOp {
    /// The number that stands for the variant in the native interface.
    pub open spec fn spec_value(&self) -> i32 {
        match self {
            VkLogicOp::VK_LOGIC_OP_CLEAR => 0i32,
            VkLogicOp::VK_LOGIC_OP_AND => 1i32,
            VkLogicOp::VK_LOGIC_OP_AND_REVERSE => 2i32,
            VkLogicOp::VK_LOGIC_OP_COPY => 3i32,
            VkLogicOp::VK_LOGIC_OP_AND_INVERTED => 4i32,
            VkLogicOp::VK_LOGIC_OP_NO_OP => 5i32,
            VkLogicOp::VK_LOGIC_OP_XOR => 6i32,
            VkLogicOp::VK_LOGIC_OP_OR => 7i32,
            VkLogicOp::VK_LOGIC_OP_NOR => 8i32,
            VkLogicOp::VK_LOGIC_OP_EQUIVALENT => 9i32,
            VkLogicOp::VK_LOGIC_OP_INVERT => 10i32,
            VkLogicOp::VK_LOGIC_OP_OR_REVERSE => 11i32,
            VkLogicOp::VK_LOGIC_OP_COPY_INVERTED => 12i32,
            VkLogicOp::VK_LOGIC_OP_OR_INVERTED => 13i32,
            VkLogicOp::VK_LOGIC_OP_NAND => 14i32,
            VkLogicOp::VK_LOGIC_OP_SET => 15i32,
        }
    }

    #[verifier::when_used_as_spec(spec_value)]
    pub fn value(&self) -> (value: i32)
        ensures
            value == self.spec_value(),
    {
        match self {
            VkLogicOp::VK_LOGIC_OP_CLEAR => 0,
            VkLogicOp::VK_LOGIC_OP_AND => 1,
            VkLogicOp::VK_LOGIC_OP_AND_REVERSE => 2,
            VkLogicOp::VK_LOGIC_OP_COPY => 3,
            VkLogicOp::VK_LOGIC_OP_AND_INVERTED => 4,
            VkLogicOp::VK_LOGIC_OP_NO_OP => 5,
            VkLogicOp::VK_LOGIC_OP_XOR => 6,
            VkLogicOp::VK_LOGIC_OP_OR => 7,
            VkLogicOp::VK_LOGIC_OP_NOR => 8,
            VkLogicOp::VK_LOGIC_OP_EQUIVALENT => 9,
            VkLogicOp::VK_LOGIC_OP_INVERT => 10,
            VkLogicOp::VK_LOGIC_OP_OR_REVERSE => 11,
            VkLogicOp::VK_LOGIC_OP_COPY_INVERTED => 12,
            VkLogicOp::VK_LOGIC_OP_OR_INVERTED => 13,
            VkLogicOp::VK_LOGIC_OP_NAND => 14,
            VkLogicOp::VK_LOGIC_OP_SET => 15,
        }
    }
}

#[derive(Clone, Copy, Debug, PartialEq, Eq, Hash)]
pub enum VkBlendFactor {
    VK_BLEND_FACTOR_ZERO,
    VK_BLEND_FACTOR_ONE,
    VK_BLEND_FACTOR_SRC_COLOR,
    VK_BLEND_FACTOR_ONE_MINUS_SRC_COLOR,
    VK_BLEND_FACTOR_DST_COLOR,
    VK_BLEND_FACTOR_ONE_MINUS_DST_COLOR,
    VK_BLEND_FACTOR_SRC_ALPHA,
    VK_BLEND_FACTOR_ONE_MINUS_SRC_ALPHA,
    VK_BLEND_FACTOR_DST_ALPHA,
    VK_BLEND_FACTOR_ONE_MINUS_DST_ALPHA,
    VK_BLEND_FACTOR_CONSTANT_COLOR,
    VK_BLEND_FACTOR_ONE_MINUS_CONSTANT_COLOR,
    VK_BLEND_FACTOR_CONSTANT_ALPHA,
    VK_BLEND_FACTOR_ONE_MINUS_CONSTANT_ALPHA,
    VK_BLEND_FACTOR_SRC_ALPHA_SATURATE,
    VK_BLEND_FACTOR_SRC1_COLOR,
    VK_BLEND_FACTOR_ONE_MINUS_SRC1_COLOR,
    VK_BLEND_FACTOR_SRC1_ALPHA,
    VK_BLEND_FACTOR_ONE_MINUS_SRC1_ALPHA,
}

impl VkBlendFactor {
    /// The number that stands for the variant in the native interface.
    pub open spec fn spec_value(&self) -> i32 {
        match self {
            VkBlendFactor::VK_BLEND_FACTOR_ZERO => 0i32,
            VkBlendFactor::VK_BLEND_FACTOR_ONE => 1i32,
            VkBlendFactor::VK_BLEND_FACTOR_SRC_COLOR => 2i32,
            VkBlendFactor::VK_BLEND_FACTOR_ONE_MINUS_SRC_COLOR => 3i32,
            VkBlendFactor::VK_BLEND_FACTOR_DST_COLOR => 4i32,
            VkBlendFactor::VK_BLEND_FACTOR_ONE_MINUS_DST_COLOR => 5i32,
            VkBlendFactor::VK_BLEND_FACTOR_SRC_ALPHA => 6i32,
            VkBlendFactor::VK_BLEND_FACTOR_ONE_MINUS_SRC_ALPHA => 7i32,
            VkBlendFactor::VK_BLEND_FACTOR_DST_ALPHA => 8i32,
            VkBlendFactor::VK_BLEND_FACTOR_ONE_MINUS_DST_ALPHA => 9i32,
            VkBlendFactor::VK_BLEND_FACTOR_CONSTANT_COLOR => 10i32,
            VkBlendFactor::VK_BLEND_FACTOR_ONE_MINUS_CONSTANT_COLOR => 11i32,
            VkBlendFactor::VK_BLEND_FACTOR_CONSTANT_ALPHA => 12i32,
            VkBlendFactor::VK_BLEND_FACTOR_ONE_MINUS_CONSTANT_ALPHA => 13i32,
            VkBlendFactor::VK_BLEND_FACTOR_SRC_ALPHA_SATURATE => 14i32,
            VkBlendFactor::VK_BLEND_FACTOR_SRC1_COLOR => 15i32,
            VkBlendFactor::VK_BLEND_FACTOR_ONE_MINUS_SRC1_COLOR => 16i32,
            VkBlendFactor::VK_BLEND_FACTOR_SRC1_ALPHA => 17i32,
            VkBlendFactor::VK_BLEND_FACTOR_ONE_MINUS_SRC1_ALPHA => 18i32,
        }
    }

    #[verifier::when_used_as_spec(spec_value)]
    pub fn value(&self) -> (value: i32)
        ensures
            value == self.spec_value(),
    {
        match self {
            VkBlendFactor::VK_BLEND_FACTOR_ZERO => 0,
            VkBlendFactor::VK_BLEND_FACTOR_ONE => 1,
            VkBlendFactor::VK_BLEND_FACTOR_SRC_COLOR => 2,
            VkBlendFactor::VK_BLEND_FACTOR_ONE_MINUS_SRC_COLOR => 3,
            VkBlendFactor::VK_BLEND_FACTOR_DST_COLOR => 4,
            VkBlendFactor::VK_BLEND_FACTOR_ONE_MINUS_DST_COLOR => 5,
            VkBlendFactor::VK_BLEND_FACTOR_SRC_ALPHA => 6,
            VkBlendFactor::VK_BLEND_FACTOR_ONE_MINUS_SRC_ALPHA => 7,
            VkBlendFactor::VK_BLEND_FACTOR_DST_ALPHA => 8,
            VkBlendFactor::VK_BLEND_FACTOR_ONE_MINUS_DST_ALPHA => 9,
            VkBlendFactor::VK_BLEND_FACTOR_CONSTANT_COLOR => 10,
            VkBlendFactor::VK_BLEND_FACTOR_ONE_MINUS_CONSTANT_COLOR => 11,
            VkBlendFactor::VK_BLEND_FACTOR_CONSTANT_ALPHA => 12,
            VkBlendFactor::VK_BLEND_FACTOR_ONE_MINUS_CONSTANT_ALPHA => 13,
            VkBlendFactor::VK_BLEND_FACTOR_SRC_ALPHA_SATURATE => 14,
            VkBlendFactor::VK_BLEND_FACTOR_SRC1_COLOR => 15,
            VkBlendFactor::VK_BLEND_FACTOR_ONE_MINUS_SRC1_COLOR => 16,
            VkBlendFactor::VK_BLEND_FACTOR_SRC1_ALPHA => 17,
            VkBlendFactor::VK_BLEND_FACTOR_ONE_MINUS_SRC1_ALPHA => 18,
        }
    }
}

#[derive(Clone, Copy, Debug, PartialEq, Eq, Hash)]
pub enum VkBlendOp {
    VK_BLEND_OP_ADD,
    VK_BLEND_OP_SUBTRACT,
    VK_BLEND_OP_REVERSE_SUBTRACT,
    VK_BLEND_OP_MIN,
    VK_BLEND_OP_MAX,
}

impl VkBlendOp {
    /// The number that stands for the variant in the native interface.
    pub open spec fn spec_value(&self) -> i32 {
        match self {
            VkBlendOp::VK_BLEND_OP_ADD => 0i32,
            VkBlendOp::VK_BLEND_OP_SUBTRACT => 1i32,
            VkBlendOp::VK_BLEND_OP_REVERSE_SUBTRACT => 2i32,
            VkBlendOp::VK_BLEND_OP_MIN => 3i32,
            VkBlendOp::VK_BLEND_OP_MAX => 4i32,
        }
    }

    #[verifier::when_used_as_spec(spec_value)]
    pub fn value(&self) -> (value: i32)
        ensures
            value == self.spec_value(),
    {
        match self {
            VkBlendOp::VK_BLEND_OP_ADD => 0,
            VkBlendOp::VK_BLEND_OP_SUBTRACT => 1,
            VkBlendOp::VK_BLEND_OP_REVERSE_SUBTRACT => 2,
            VkBlendOp::VK_BLEND_OP_MIN => 3,
            VkBlendOp::VK_BLEND_OP_MAX => 4,
        }
    }
}

#[derive(Clone, Copy, Debug, PartialEq, Eq, Hash)]
pub enum VkDynamicState {
    VK_DYNAMIC_STATE_VIEWPORT,
    VK_DYNAMIC_STATE_SCISSOR,
    VK_DYNAMIC_STATE_LINE_WIDTH,
    VK_DYNAMIC_STATE_DEPTH_BIAS,
    VK_DYNAMIC_STATE_BLEND_CONSTANTS,
    VK_DYNAMIC_STATE_DEPTH_BOUNDS,
    VK_DYNAMIC_STATE_STENCIL_COMPARE_MASK,
    VK_DYNAMIC_STATE_STENCIL_WRITE_MASK,
    VK_DYNAMIC_STATE_STENCIL_REFERENCE,
    VK_DYNAMIC_STATE_VIEWPORT_W_SCALING_NV,
    VK_DYNAMIC_STATE_DISCARD_RECTANGLE_EXT,
}

impl VkDynamicState {
    /// The number that stands for the variant in the native interface.
    pub open spec fn spec_value(&self) -> i32 {
        match self {
            VkDynamicState::VK_DYNAMIC_STATE_VIEWPORT => 0i32,
            VkDynamicState::VK_DYNAMIC_STATE_SCISSOR => 1i32,
            VkDynamicState::VK_DYNAMIC_STATE_LINE_WIDTH => 2i32,
            VkDynamicState::VK_DYNAMIC_STATE_DEPTH_BIAS => 3i32,
            VkDynamicState::VK_DYNAMIC_STATE_BLEND_CONSTANTS => 4i32,
            VkDynamicState::VK_DYNAMIC_STATE_DEPTH_BOUNDS => 5i32,
            VkDynamicState::VK_DYNAMIC_STATE_STENCIL_COMPARE_MASK => 6i32,
            VkDynamicState::VK_DYNAMIC_STATE_STENCIL_WRITE_MASK => 7i32,
            VkDynamicState::VK_DYNAMIC_STATE_STENCIL_REFERENCE => 8i32,
            VkDynamicState::VK_DYNAMIC_STATE_VIEWPORT_W_SCALING_NV => 1000087000i32,
            VkDynamicState::VK_DYNAMIC_STATE_DISCARD_RECTANGLE_EXT => 1000099000i32,
        }
    }

    #[verifier::when_used_as_spec(spec_value)]
    pub fn value(&self) -> (value: i32)
        ensures
            value == self.spec_value(),
    {
        match self {
            VkDynamicState::VK_DYNAMIC_STATE_VIEWPORT => 0,
            VkDynamicState::VK_DYNAMIC_STATE_SCISSOR => 1,
            VkDynamicState::VK_DYNAMIC_STATE_LINE_WIDTH => 2,
            VkDynamicState::VK_DYNAMIC_STATE_DEPTH_BIAS => 3,
            VkDynamicState::VK_DYNAMIC_STATE_BLEND_CONSTANTS => 4,
            VkDynamicState::VK_DYNAMIC_STATE_DEPTH_BOUNDS => 5,
            VkDynamicState::VK_DYNAMIC_STATE_STENCIL_COMPARE_MASK => 6,
            VkDynamicState::VK_DYNAMIC_STATE_STENCIL_WRITE_MASK => 7,
            VkDynamicState::VK_DYNAMIC_STATE_STENCIL_REFERENCE => 8,
            VkDynamicState::VK_DYNAMIC_STATE_VIEWPORT_W_SCALING_NV => 1000087000,
            VkDynamicState::VK_DYNAMIC_STATE_DISCARD_RECTANGLE_EXT => 1000099000,
        }
    }
}

#[derive(Clone, Copy, Debug, PartialEq, Eq, Hash)]
pub enum VkFilter {
    VK_FILTER_NEAREST,
    VK_FILTER_LINEAR,
    VK_FILTER_CUBIC_IMG,
}

impl VkFilter {
    /// The number that stands for the variant in the native interface.
    pub open spec fn spec_value(&self) -> i32 {
        match self {
            VkFilter::VK_FILTER_NEAREST => 0i32,
            VkFilter::VK_FILTER_LINEAR => 1i32,
            VkFilter::VK_FILTER_CUBIC_IMG => 1000015000i32,
        }
    }

    #[verifier::when_used_as_spec(spec_value)]
    pub fn value(&self) -> (value: i32)
        ensures
            value == self.spec_value(),
    {
        match self {
            VkFilter::VK_FILTER_NEAREST => 0,
            VkFilter::VK_FILTER_LINEAR => 1,
            VkFilter::VK_FILTER_CUBIC_IMG => 1000015000,
        }
    }
}

#[derive(Clone, Copy, Debug, PartialEq, Eq, Hash)]
pub enum VkSamplerMipmapMode {
    VK_SAMPLER_MIPMAP_MODE_NEAREST,
    VK_SAMPLER_MIPMAP_MODE_LINEAR,
}

impl VkSamplerMipmapMode {
    /// The number that stands for the variant in the native interface.
    pub open spec fn spec_value(&self) -> i32 {
        match self {
            VkSamplerMipmapMode::VK_SAMPLER_MIPMAP_MODE_NEAREST => 0i32,
            VkSamplerMipmapMode::VK_SAMPLER_MIPMAP_MODE_LINEAR => 1i32,
        }
    }

    #[verifier::when_used_as_spec(spec_value)]
    pub fn value(&self) -> (value: i32)
        ensures
            value == self.spec_value(),
    {
        match self {
            VkSamplerMipmapMode::VK_SAMPLER_MIPMAP_MODE_NEAREST => 0,
            VkSamplerMipmapMode::VK_SAMPLER_MIPMAP_MODE_LINEAR => 1,
        }
    }
}

#[derive(Clone, Copy, Debug, PartialEq, Eq, Hash)]
pub enum VkSamplerAddressMode {
    VK_SAMPLER_ADDRESS_MODE_REPEAT,
    VK_SAMPLER_ADDRESS_MODE_MIRRORED_REPEAT,
    VK_SAMPLER_ADDRESS_MODE_CLAMP_TO_EDGE,
    VK_SAMPLER_ADDRESS_MODE_CLAMP_TO_BORDER,
    VK_SAMPLER_ADDRESS_MODE_MIRROR_CLAMP_TO_EDGE,
}

impl VkSamplerAddressMode {
    /// The number that stands for the variant in the native interface.
    pub open spec fn spec_value(&self) -> i32 {
        match self {
            VkSamplerAddressMode::VK_SAMPLER_ADDRESS_MODE_REPEAT => 0i32,
            VkSamplerAddressMode::VK_SAMPLER_ADDRESS_MODE_MIRRORED_REPEAT => 1i32,
            VkSamplerAddressMode::VK_SAMPLER_ADDRESS_MODE_CLAMP_TO_EDGE => 2i32,
            VkSamplerAddressMode::VK_SAMPLER_ADDRESS_MODE_CLAMP_TO_BORDER => 3i32,
            VkSamplerAddressMode::VK_SAMPLER_ADDRESS_MODE_MIRROR_CLAMP_TO_EDGE => 4i32,
        }
    }

    #[verifier::when_used_as_spec(spec_value)]
    pub fn value(&self) -> (value: i32)
        ensures
            value == self.spec_value(),
    {
        match self {
            VkSamplerAddressMode::VK_SAMPLER_ADDRESS_MODE_REPEAT => 0,
            VkSamplerAddressMode::VK_SAMPLER_ADDRESS_MODE_MIRRORED_REPEAT => 1,
            VkSamplerAddressMode::VK_SAMPLER_ADDRESS_MODE_CLAMP_TO_EDGE => 2,
            VkSamplerAddressMode::VK_SAMPLER_ADDRESS_MODE_CLAMP_TO_BORDER => 3,
            VkSamplerAddressMode::VK_SAMPLER_ADDRESS_MODE_MIRROR_CLAMP_TO_EDGE => 4,
        }
    }
}

#[derive(Clone, Copy, Debug, PartialEq, Eq, Hash)]
pub enum VkBorderColor {
    VK_BORDER_COLOR_FLOAT_TRANSPARENT_BLACK,
    VK_BORDER_COLOR_INT_TRANSPARENT_BLACK,
    VK_BORDER_COLOR_FLOAT_OPAQUE_BLACK,
    VK_BORDER_COLOR_INT_OPAQUE_BLACK,
    VK_BORDER_COLOR_FLOAT_OPAQUE_WHITE,
    VK_BORDER_COLOR_INT_OPAQUE_WHITE,
}

impl VkBorderColor {
    /// The number that stands for the variant in the native interface.
    pub open spec fn spec_value(&self) -> i32 {
        match self {
            VkBorderColor::VK_BORDER_COLOR_FLOAT_TRANSPARENT_BLACK => 0i32,
            VkBorderColor::VK_BORDER_COLOR_INT_TRANSPARENT_BLACK => 1i32,
            VkBorderColor::VK_BORDER_COLOR_FLOAT_OPAQUE_BLACK => 2i32,
            VkBorderColor::VK_BORDER_COLOR_INT_OPAQUE_BLACK => 3i32,
            VkBorderColor::VK_BORDER_COLOR_FLOAT_OPAQUE_WHITE => 4i32,
            VkBorderColor::VK_BORDER_COLOR_INT_OPAQUE_WHITE => 5i32,
        }
    }

    #[verifier::when_used_as_spec(spec_value)]
    pub fn value(&self) -> (value: i32)
        ensures
            value == self.spec_value(),
    {
        match self {
            VkBorderColor::VK_BORDER_COLOR_FLOAT_TRANSPARENT_BLACK => 0,
            VkBorderColor::VK_BORDER_COLOR_INT_TRANSPARENT_BLACK => 1,
            VkBorderColor::VK_BORDER_COLOR_FLOAT_OPAQUE_BLACK => 2,
            VkBorderColor::VK_BORDER_COLOR_INT_OPAQUE_BLACK => 3,
            VkBorderColor::VK_BORDER_COLOR_FLOAT_OPAQUE_WHITE => 4,
            VkBorderColor::VK_BORDER_COLOR_INT_OPAQUE_WHITE => 5,
        }
    }
}

#[derive(Clone, Copy, Debug, PartialEq, Eq, Hash)]
pub enum VkDescriptorType {
    VK_DESCRIPTOR_TYPE_SAMPLER,
    VK_DESCRIPTOR_TYPE_COMBINED_IMAGE_SAMPLER,
    VK_DESCRIPTOR_TYPE_SAMPLED_IMAGE,
    VK_DESCRIPTOR_TYPE_STORAGE_IMAGE,
    VK_DESCRIPTOR_TYPE_UNIFORM_TEXEL_BUFFER,
    VK_DESCRIPTOR_TYPE_STORAGE_TEXEL_BUFFER,
    VK_DESCRIPTOR_TYPE_UNIFORM_BUFFER,
    VK_DESCRIPTOR_TYPE_STORAGE_BUFFER,
    VK_DESCRIPTOR_TYPE_UNIFORM_BUFFER_DYNAMIC,
    VK_DESCRIPTOR_TYPE_STORAGE_BUFFER_DYNAMIC,
    VK_DESCRIPTOR_TYPE_INPUT_ATTACHMENT,
}

impl VkDescriptorType {
    /// The number that stands for the variant in the native interface.
    pub open spec fn spec_value(&self) -> i32 {
        match self {
            VkDescriptorType::VK_DESCRIPTOR_TYPE_SAMPLER => 0i32,
            VkDescriptorType::VK_DESCRIPTOR_TYPE_COMBINED_IMAGE_SAMPLER => 1i32,
            VkDescriptorType::VK_DESCRIPTOR_TYPE_SAMPLED_IMAGE => 2i32,
            VkDescriptorType::VK_DESCRIPTOR_TYPE_STORAGE_IMAGE => 3i32,
            VkDescriptorType::VK_DESCRIPTOR_TYPE_UNIFORM_TEXEL_BUFFER => 4i32,
            VkDescriptorType::VK_DESCRIPTOR_TYPE_STORAGE_TEXEL_BUFFER => 5i32,
            VkDescriptorType::VK_DESCRIPTOR_TYPE_UNIFORM_BUFFER => 6i32,
            VkDescriptorType::VK_DESCRIPTOR_TYPE_STORAGE_BUFFER => 7i32,
            VkDescriptorType::VK_DESCRIPTOR_TYPE_UNIFORM_BUFFER_DYNAMIC => 8i32,
            VkDescriptorType::VK_DESCRIPTOR_TYPE_STORAGE_BUFFER_DYNAMIC => 9i32,
            VkDescriptorType::VK_DESCRIPTOR_TYPE_INPUT_ATTACHMENT => 10i32,
        }
    }

    #[verifier::when_used_as_spec(spec_value)]
    pub fn value(&self) -> (value: i32)
        ensures
            value == self.spec_value(),
    {
        match self {
            VkDescriptorType::VK_DESCRIPTOR_TYPE_SAMPLER => 0,
            VkDescriptorType::VK_DESCRIPTOR_TYPE_COMBINED_IMAGE_SAMPLER => 1,
            VkDescriptorType::VK_DESCRIPTOR_TYPE_SAMPLED_IMAGE => 2,
            VkDescriptorType::VK_DESCRIPTOR_TYPE_STORAGE_IMAGE => 3,
            VkDescriptorType::VK_DESCRIPTOR_TYPE_UNIFORM_TEXEL_BUFFER => 4,
            VkDescriptorType::VK_DESCRIPTOR_TYPE_STORAGE_TEXEL_BUFFER => 5,
            VkDescriptorType::VK_DESCRIPTOR_TYPE_UNIFORM_BUFFER => 6,
            VkDescriptorType::VK_DESCRIPTOR_TYPE_STORAGE_BUFFER => 7,
            VkDescriptorType::VK_DESCRIPTOR_TYPE_UNIFORM_BUFFER_DYNAMIC => 8,
            VkDescriptorType::VK_DESCRIPTOR_TYPE_STORAGE_BUFFER_DYNAMIC => 9,
            VkDescriptorType::VK_DESCRIPTOR_TYPE_INPUT_ATTACHMENT => 10,
        }
    }
}

#[derive(Clone, Copy, Debug, PartialEq, Eq, Hash)]
pub enum VkAttachmentLoadOp {
    VK_ATTACHMENT_LOAD_OP_LOAD,
    VK_ATTACHMENT_LOAD_OP_CLEAR,
    VK_ATTACHMENT_LOAD_OP_DONT_CARE,
}

impl VkAttachmentLoadOp {
    /// The number that stands for the variant in the native interface.
    pub open spec fn spec_value(&self) -> i32 {
        match self {
            VkAttachmentLoadOp::VK_ATTACHMENT_LOAD_OP_LOAD => 0i32,
            VkAttachmentLoadOp::VK_ATTACHMENT_LOAD_OP_CLEAR => 1i32,
            VkAttachmentLoadOp::VK_ATTACHMENT_LOAD_OP_DONT_CARE => 2i32,
        }
    }

    #[verifier::when_used_as_spec(spec_value)]
    pub fn value(&self) -> (value: i32)
        ensures
            value == self.spec_value(),
    {
        match self {
            VkAttachmentLoadOp::VK_ATTACHMENT_LOAD_OP_LOAD => 0,
            VkAttachmentLoadOp::VK_ATTACHMENT_LOAD_OP_CLEAR => 1,
            VkAttachmentLoadOp::VK_ATTACHMENT_LOAD_OP_DONT_CARE => 2,
        }
    }
}

#[derive(Clone, Copy, Debug, PartialEq, Eq, Hash)]
pub enum VkAttachmentStoreOp {
    VK_ATTACHMENT_STORE_OP_STORE,
    VK_ATTACHMENT_STORE_OP_DONT_CARE,
}

impl VkAttachmentStoreOp {
    /// The number that stands for the variant in the native interface.
    pub open spec fn spec_value(&self) -> i32 {
        match self {
            VkAttachmentStoreOp::VK_ATTACHMENT_STORE_OP_STORE => 0i32,
            VkAttachmentStoreOp::VK_ATTACHMENT_STORE_OP_DONT_CARE => 1i32,
        }
    }

    #[verifier::when_used_as_spec(spec_value)]
    pub fn value(&self) -> (value: i32)
        ensures
            value == self.spec_value(),
    {
        match self {
            VkAttachmentStoreOp::VK_ATTACHMENT_STORE_OP_STORE => 0,
            VkAttachmentStoreOp::VK_ATTACHMENT_STORE_OP_DONT_CARE => 1,
        }
    }
}

#[derive(Clone, Copy, Debug, PartialEq, Eq, Hash)]
pub enum VkPipelineBindPoint {
    VK_PIPELINE_BIND_POINT_GRAPHICS,
    VK_PIPELINE_BIND_POINT_COMPUTE,
}

impl VkPipelineBindPoint {
    /// The number that stands for the variant in the native interface.
    pub open spec fn spec_value(&self) -> i32 {
        match self {
            VkPipelineBindPoint::VK_PIPELINE_BIND_POINT_GRAPHICS => 0i32,
            VkPipelineBindPoint::VK_PIPELINE_BIND_POINT_COMPUTE => 1i32,
        }
    }

    #[verifier::when_used_as_spec(spec_value)]
    pub fn value(&self) -> (value: i32)
        ensures
            value == self.spec_value(),
    {
        match self {
            VkPipelineBindPoint::VK_PIPELINE_BIND_POINT_GRAPHICS => 0,
            VkPipelineBindPoint::VK_PIPELINE_BIND_POINT_COMPUTE => 1,
        }
    }
}

#[derive(Clone, Copy, Debug, PartialEq, Eq, Hash)]
pub enum VkCommandBufferLevel {
    VK_COMMAND_BUFFER_LEVEL_PRIMARY,
    VK_COMMAND_BUFFER_LEVEL_SECONDARY,
}

impl VkCommandBufferLevel {
    /// The number that stands for the variant in the native interface.
    pub open spec fn spec_value(&self) -> i32 {
        match self {
            VkCommandBufferLevel::VK_COMMAND_BUFFER_LEVEL_PRIMARY => 0i32,
            VkCommandBufferLevel::VK_COMMAND_BUFFER_LEVEL_SECONDARY => 1i32,
        }
    }

    #[verifier::when_used_as_spec(spec_value)]
    pub fn value(&self) -> (value: i32)
        ensures
            value == self.spec_value(),
    {
        match self {
            VkCommandBufferLevel::VK_COMMAND_BUFFER_LEVEL_PRIMARY => 0,
            VkCommandBufferLevel::VK_COMMAND_BUFFER_LEVEL_SECONDARY => 1,
        }
    }
}

#[derive(Clone, Copy, Debug, PartialEq, Eq, Hash)]
pub enum VkIndexType {
    VK_INDEX_TYPE_UINT16,
    VK_INDEX_TYPE_UINT32,
}

impl VkIndexType {
    /// The number that stands for the variant in the native interface.
    pub open spec fn spec_value(&self) -> i32 {
        match self {
            VkIndexType::VK_INDEX_TYPE_UINT16 => 0i32,
            VkIndexType::VK_INDEX_TYPE_UINT32 => 1i32,
        }
    }

    #[verifier::when_used_as_spec(spec_value)]
    pub fn value(&self) -> (value: i32)
        ensures
            value == self.spec_value(),
    {
        match self {
            VkIndexType::VK_INDEX_TYPE_UINT16 => 0,
            VkIndexType::VK_INDEX_TYPE_UINT32 => 1,
        }
    }
}

#[derive(Clone, Copy, Debug, PartialEq, Eq, Hash)]
pub enum VkSubpassContents {
    VK_SUBPASS_CONTENTS_INLINE,
    VK_SUBPASS_CONTENTS_SECONDARY_COMMAND_BUFFERS,
}

impl VkSubpassContents {
    /// The number that stands for the variant in the native interface.
    pub open spec fn spec_value(&self) -> i32 {
        match self {
            VkSubpassContents::VK_SUBPASS_CONTENTS_INLINE => 0i32,
            VkSubpassContents::VK_SUBPASS_CONTENTS_SECONDARY_COMMAND_BUFFERS => 1i32,
        }
    }

    #[verifier::when_used_as_spec(spec_value)]
    pub fn value(&self) -> (value: i32)
        ensures
            value == self.spec_value(),
    {
        match self {
            VkSubpassContents::VK_SUBPASS_CONTENTS_INLINE => 0,
            VkSubpassContents::VK_SUBPASS_CONTENTS_SECONDARY_COMMAND_BUFFERS => 1,
        }
    }
}

} // verus!
