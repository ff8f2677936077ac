use vstd::prelude::*;

verus! {

#[derive(Clone, Copy, Debug, PartialEq, Eq, Hash)]
pub enum VkColorSpaceKHR {
    VK_COLOR_SPACE_SRGB_NONLINEAR_KHR,
    VK_COLOR_SPACE_DISPLAY_P3_NONLINEAR_EXT,
    VK_COLOR_SPACE_EXTENDED_SRGB_LINEAR_EXT,
    VK_COLOR_SPACE_DCI_P3_LINEAR_EXT,
    VK_COLOR_SPACE_DCI_P3_NONLINEAR_EXT,
    VK_COLOR_SPACE_BT709_LINEAR_EXT,
    VK_COLOR_SPACE_BT709_NONLINEAR_EXT,
    VK_COLOR_SPACE_BT2020_LINEAR_EXT,
    VK_COLOR_SPACE_HDR10_ST2084_EXT,
    VK_COLOR_SPACE_DOLBYVISION_EXT,
    VK_COLOR_SPACE_HDR10_HLG_EXT,
    VK_COLOR_SPACE_ADOBERGB_LINEAR_EXT,
    VK_COLOR_SPACE_ADOBERGB_NONLINEAR_EXT,
    VK_COLOR_SPACE_PASS_THROUGH_EXT,
}

impl VkColorSpaceKHR {
    /// The number that stands for the variant in the native interface.
    pub open spec fn spec_value(&self) -> i32 {
        match self {
            VkColorSpaceKHR::VK_COLOR_SPACE_SRGB_NONLINEAR_KHR => 0i32,
            VkColorSpaceKHR::VK_COLOR_SPACE_DISPLAY_P3_NONLINEAR_EXT => 1000104001i32,
            VkColorSpaceKHR::VK_COLOR_SPACE_EXTENDED_SRGB_LINEAR_EXT => 1000104002i32,
            VkColorSpaceKHR::VK_COLOR_SPACE_DCI_P3_LINEAR_EXT => 1000104003i32,
            VkColorSpaceKHR::VK_COLOR_SPACE_DCI_P3_NONLINEAR_EXT => 1000104004i32,
            VkColorSpaceKHR::VK_COLOR_SPACE_BT709_LINEAR_EXT => 1000104005i32,
            VkColorSpaceKHR::VK_COLOR_SPACE_BT709_NONLINEAR_EXT => 1000104006i32,
            VkColorSpaceKHR::VK_COLOR_SPACE_BT2020_LINEAR_EXT => 1000104007i32,
            VkColorSpaceKHR::VK_COLOR_SPACE_HDR10_ST2084_EXT => 1000104008i32,
            VkColorSpaceKHR::VK_COLOR_SPACE_DOLBYVISION_EXT => 1000104009i32,
            VkColorSpaceKHR::VK_COLOR_SPACE_HDR10_HLG_EXT => 1000104010i32,
            VkColorSpaceKHR::VK_COLOR_SPACE_ADOBERGB_LINEAR_EXT => 1000104011i32,
            VkColorSpaceKHR::VK_COLOR_SPACE_ADOBERGB_NONLINEAR_EXT => 1000104012i32,
            VkColorSpaceKHR::VK_COLOR_SPACE_PASS_THROUGH_EXT => 1000104013i32,
        }
    }

    #[verifier::when_used_as_spec(spec_value)]
    pub fn value(&self) -> (value: i32)
        ensures
            value == self.spec_value(),
    {
        match self {
            VkColorSpaceKHR::VK_COLOR_SPACE_SRGB_NONLINEAR_KHR => 0,
            VkColorSpaceKHR::VK_COLOR_SPACE_DISPLAY_P3_NONLINEAR_EXT => 1000104001,
            VkColorSpaceKHR::VK_COLOR_SPACE_EXTENDED_SRGB_LINEAR_EXT => 1000104002,
            VkColorSpaceKHR::VK_COLOR_SPACE_DCI_P3_LINEAR_EXT => 1000104003,
            VkColorSpaceKHR::VK_COLOR_SPACE_DCI_P3_NONLINEAR_EXT => 1000104004,
            VkColorSpaceKHR::VK_COLOR_SPACE_BT709_LINEAR_EXT => 1000104005,
            VkColorSpaceKHR::VK_COLOR_SPACE_BT709_NONLINEAR_EXT => 1000104006,
            VkColorSpaceKHR::VK_COLOR_SPACE_BT2020_LINEAR_EXT => 1000104007,
            VkColorSpaceKHR::VK_COLOR_SPACE_HDR10_ST2084_EXT => 1000104008,
            VkColorSpaceKHR::VK_COLOR_SPACE_DOLBYVISION_EXT => 1000104009,
            VkColorSpaceKHR::VK_COLOR_SPACE_HDR10_HLG_EXT => 1000104010,
            VkColorSpaceKHR::VK_COLOR_SPACE_ADOBERGB_LINEAR_EXT => 1000104011,
            VkColorSpaceKHR::VK_COLOR_SPACE_ADOBERGB_NONLINEAR_EXT => 1000104012,
            VkColorSpaceKHR::VK_COLOR_SPACE_PASS_THROUGH_EXT => 1000104013,
        }
    }
}

#[derive(Clone, Copy, Debug, PartialEq, Eq, Hash)]
pub enum VkPresentModeKHR {
    VK_PRESENT_MODE_IMMEDIATE_KHR,
    VK_PRESENT_MODE_MAILBOX_KHR,
    VK_PRESENT_MODE_FIFO_KHR,
    VK_PRESENT_MODE_FIFO_RELAXED_KHR,
}

impl VkPresentModeKHR {
    /// The number that stands for the variant in the native interface.
    pub open spec fn spec_value(&self) -> i32 {
        match self {
            VkPresentModeKHR::VK_PRESENT_MODE_IMMEDIATE_KHR => 0i32,
            VkPresentModeKHR::VK_PRESENT_MODE_MAILBOX_KHR => 1i32,
            VkPresentModeKHR::VK_PRESENT_MODE_FIFO_KHR => 2i32,
            VkPresentModeKHR::VK_PRESENT_MODE_FIFO_RELAXED_KHR => 3i32,
        }
    }

    #[verifier::when_used_as_spec(spec_value)]
    pub fn value(&self) -> (value: i32)
        ensures
            value == self.spec_value(),
    {
        match self {
            VkPresentModeKHR::VK_PRESENT_MODE_IMMEDIATE_KHR => 0,
            VkPresentModeKHR::VK_PRESENT_MODE_MAILBOX_KHR => 1,
            VkPresentModeKHR::VK_PRESENT_MODE_FIFO_KHR => 2,
            VkPresentModeKHR::VK_PRESENT_MODE_FIFO_RELAXED_KHR => 3,
        }
    }
}

#[derive(Clone, Copy, Debug, PartialEq, Eq, Hash)]
pub enum VkDebugReportObjectTypeEXT {
    VK_DEBUG_REPORT_OBJECT_TYPE_UNKNOWN_EXT,
    VK_DEBUG_REPORT_OBJECT_TYPE_INSTANCE_EXT,
    VK_DEBUG_REPORT_OBJECT_TYPE_PHYSICAL_DEVICE_EXT,
    VK_DEBUG_REPORT_OBJECT_TYPE_DEVICE_EXT,
    VK_DEBUG_REPORT_OBJECT_TYPE_QUEUE_EXT,
    VK_DEBUG_REPORT_OBJECT_TYPE_SEMAPHORE_EXT,
    VK_DEBUG_REPORT_OBJECT_TYPE_COMMAND_BUFFER_EXT,
    VK_DEBUG_REPORT_OBJECT_TYPE_FENCE_EXT,
    VK_DEBUG_REPORT_OBJECT_TYPE_DEVICE_MEMORY_EXT,
    VK_DEBUG_REPORT_OBJECT_TYPE_BUFFER_EXT,
    VK_DEBUG_REPORT_OBJECT_TYPE_IMAGE_EXT,
    VK_DEBUG_REPORT_OBJECT_TYPE_EVENT_EXT,
    VK_DEBUG_REPORT_OBJECT_TYPE_QUERY_POOL_EXT,
    VK_DEBUG_REPORT_OBJECT_TYPE_BUFFER_VIEW_EXT,
    VK_DEBUG_REPORT_OBJECT_TYPE_IMAGE_VIEW_EXT,
    VK_DEBUG_REPORT_OBJECT_TYPE_SHADER_MODULE_EXT,
    VK_DEBUG_REPORT_OBJECT_TYPE_PIPELINE_CACHE_EXT,
    VK_DEBUG_REPORT_OBJECT_TYPE_PIPELINE_LAYOUT_EXT,
    VK_DEBUG_REPORT_OBJECT_TYPE_RENDER_PASS_EXT,
    VK_DEBUG_REPORT_OBJECT_TYPE_PIPELINE_EXT,
    VK_DEBUG_REPORT_OBJECT_TYPE_DESCRIPTOR_SET_LAYOUT_EXT,
    VK_DEBUG_REPORT_OBJECT_TYPE_SAMPLER_EXT,
    VK_DEBUG_REPORT_OBJECT_TYPE_DESCRIPTOR_POOL_EXT,
    VK_DEBUG_REPORT_OBJECT_TYPE_DESCRIPTOR_SET_EXT,
    VK_DEBUG_REPORT_OBJECT_TYPE_FRAMEBUFFER_EXT,
    VK_DEBUG_REPORT_OBJECT_TYPE_COMMAND_POOL_EXT,
    VK_DEBUG_REPORT_OBJECT_TYPE_SURFACE_KHR_EXT,
    VK_DEBUG_REPORT_OBJECT_TYPE_SWAPCHAIN_KHR_EXT,
    VK_DEBUG_REPORT_OBJECT_TYPE_DEBUG_REPORT_EXT,
    VK_DEBUG_REPORT_OBJECT_TYPE_DISPLAY_KHR_EXT,
    VK_DEBUG_REPORT_OBJECT_TYPE_DISPLAY_MODE_KHR_EXT,
    VK_DEBUG_REPORT_OBJECT_TYPE_OBJECT_TABLE_NVX_EXT,
    VK_DEBUG_REPORT_OBJECT_TYPE_INDIRECT_COMMANDS_LAYOUT_NVX_EXT,
    VK_DEBUG_REPORT_OBJECT_TYPE_DESCRIPTOR_UPDATE_TEMPLATE_KHR_EXT,
}

impl VkDebugReportObjectTypeEXT {
    /// The number that stands for the variant in the native interface.
    pub open spec fn spec_value(&self) -> i32 {
        match self {
            VkDebugReportObjectTypeEXT::VK_DEBUG_REPORT_OBJECT_TYPE_UNKNOWN_EXT => 0i32,
            VkDebugReportObjectTypeEXT::VK_DEBUG_REPORT_OBJECT_TYPE_INSTANCE_EXT => 1i32,
            VkDebugReportObjectTypeEXT::VK_DEBUG_REPORT_OBJECT_TYPE_PHYSICAL_DEVICE_EXT => 2i32,
            VkDebugReportObjectTypeEXT::VK_DEBUG_REPORT_OBJECT_TYPE_DEVICE_EXT => 3i32,
            VkDebugReportObjectTypeEXT::VK_DEBUG_REPORT_OBJECT_TYPE_QUEUE_EXT => 4i32,
            VkDebugReportObjectTypeEXT::VK_DEBUG_REPORT_OBJECT_TYPE_SEMAPHORE_EXT => 5i32,
            VkDebugReportObjectTypeEXT::VK_DEBUG_REPORT_OBJECT_TYPE_COMMAND_BUFFER_EXT => 6i32,
            VkDebugReportObjectTypeEXT::VK_DEBUG_REPORT_OBJECT_TYPE_FENCE_EXT => 7i32,
            VkDebugReportObjectTypeEXT::VK_DEBUG_REPORT_OBJECT_TYPE_DEVICE_MEMORY_EXT => 8i32,
            VkDebugReportObjectTypeEXT::VK_DEBUG_REPORT_OBJECT_TYPE_BUFFER_EXT => 9i32,
            VkDebugReportObjectTypeEXT::VK_DEBUG_REPORT_OBJECT_TYPE_IMAGE_EXT => 10i32,
            VkDebugReportObjectTypeEXT::VK_DEBUG_REPORT_OBJECT_TYPE_EVENT_EXT => 11i32,
            VkDebugReportObjectTypeEXT::VK_DEBUG_REPORT_OBJECT_TYPE_QUERY_POOL_EXT => 12i32,
            VkDebugReportObjectTypeEXT::VK_DEBUG_REPORT_OBJECT_TYPE_BUFFER_VIEW_EXT => 13i32,
            VkDebugReportObjectTypeEXT::VK_DEBUG_REPORT_OBJECT_TYPE_IMAGE_VIEW_EXT => 14i32,
            VkDebugReportObjectTypeEXT::VK_DEBUG_REPORT_OBJECT_TYPE_SHADER_MODULE_EXT => 15i32,
            VkDebugReportObjectTypeEXT::VK_DEBUG_REPORT_OBJECT_TYPE_PIPELINE_CACHE_EXT => 16i32,
            VkDebugReportObjectTypeEXT::VK_DEBUG_REPORT_OBJECT_TYPE_PIPELINE_LAYOUT_EXT => 17i32,
            VkDebugReportObjectTypeEXT::VK_DEBUG_REPORT_OBJECT_TYPE_RENDER_PASS_EXT => 18i32,
            VkDebugReportObjectTypeEXT::VK_DEBUG_REPORT_OBJECT_TYPE_PIPELINE_EXT => 19i32,
            VkDebugReportObjectTypeEXT::VK_DEBUG_REPORT_OBJECT_TYPE_DESCRIPTOR_SET_LAYOUT_EXT =>
                20i32,
            VkDebugReportObjectTypeEXT::VK_DEBUG_REPORT_OBJECT_TYPE_SAMPLER_EXT => 21i32,
            VkDebugReportObjectTypeEXT::VK_DEBUG_REPORT_OBJECT_TYPE_DESCRIPTOR_POOL_EXT => 22i32,
            VkDebugReportObjectTypeEXT::VK_DEBUG_REPORT_OBJECT_TYPE_DESCRIPTOR_SET_EXT => 23i32,
            VkDebugReportObjectTypeEXT::VK_DEBUG_REPORT_OBJECT_TYPE_FRAMEBUFFER_EXT => 24i32,
            VkDebugReportObjectTypeEXT::VK_DEBUG_REPORT_OBJECT_TYPE_COMMAND_POOL_EXT => 25i32,
            VkDebugReportObjectTypeEXT::VK_DEBUG_REPORT_OBJECT_TYPE_SURFACE_KHR_EXT => 26i32,
            VkDebugReportObjectTypeEXT::VK_DEBUG_REPORT_OBJECT_TYPE_SWAPCHAIN_KHR_EXT => 27i32,
            VkDebugReportObjectTypeEXT::VK_DEBUG_REPORT_OBJECT_TYPE_DEBUG_REPORT_EXT => 28i32,
            VkDebugReportObjectTypeEXT::VK_DEBUG_REPORT_OBJECT_TYPE_DISPLAY_KHR_EXT => 29i32,
            VkDebugReportObjectTypeEXT::VK_DEBUG_REPORT_OBJECT_TYPE_DISPLAY_MODE_KHR_EXT => 30i32,
            VkDebugReportObjectTypeEXT::VK_DEBUG_REPORT_OBJECT_TYPE_OBJECT_TABLE_NVX_EXT => 31i32,
            VkDebugReportObjectTypeEXT::VK_DEBUG_REPORT_OBJECT_TYPE_INDIRECT_COMMANDS_LAYOUT_NVX_EXT =>
                32i32,
            VkDebugReportObjectTypeEXT::VK_DEBUG_REPORT_OBJECT_TYPE_DESCRIPTOR_UPDATE_TEMPLATE_KHR_EXT =>
                1000085000i32,
        }
    }

    #[verifier::when_used_as_spec(spec_value)]
    pub fn value(&self) -> (value: i32)
        ensures
            value == self.spec_value(),
    {
        match self {
            VkDebugReportObjectTypeEXT::VK_DEBUG_REPORT_OBJECT_TYPE_UNKNOWN_EXT => 0,
            VkDebugReportObjectTypeEXT::VK_DEBUG_REPORT_OBJECT_TYPE_INSTANCE_EXT => 1,
            VkDebugReportObjectTypeEXT::VK_DEBUG_REPORT_OBJECT_TYPE_PHYSICAL_DEVICE_EXT => 2,
            VkDebugReportObjectTypeEXT::VK_DEBUG_REPORT_OBJECT_TYPE_DEVICE_EXT => 3,
            VkDebugReportObjectTypeEXT::VK_DEBUG_REPORT_OBJECT_TYPE_QUEUE_EXT => 4,
            VkDebugReportObjectTypeEXT::VK_DEBUG_REPORT_OBJECT_TYPE_SEMAPHORE_EXT => 5,
            VkDebugReportObjectTypeEXT::VK_DEBUG_REPORT_OBJECT_TYPE_COMMAND_BUFFER_EXT => 6,
            VkDebugReportObjectTypeEXT::VK_DEBUG_REPORT_OBJECT_TYPE_FENCE_EXT => 7,
            VkDebugReportObjectTypeEXT::VK_DEBUG_REPORT_OBJECT_TYPE_DEVICE_MEMORY_EXT => 8,
            VkDebugReportObjectTypeEXT::VK_DEBUG_REPORT_OBJECT_TYPE_BUFFER_EXT => 9,
            VkDebugReportObjectTypeEXT::VK_DEBUG_REPORT_OBJECT_TYPE_IMAGE_EXT => 10,
            VkDebugReportObjectTypeEXT::VK_DEBUG_REPORT_OBJECT_TYPE_EVENT_EXT => 11,
            VkDebugReportObjectTypeEXT::VK_DEBUG_REPORT_OBJECT_TYPE_QUERY_POOL_EXT => 12,
            VkDebugReportObjectTypeEXT::VK_DEBUG_REPORT_OBJECT_TYPE_BUFFER_VIEW_EXT => 13,
            VkDebugReportObjectTypeEXT::VK_DEBUG_REPORT_OBJECT_TYPE_IMAGE_VIEW_EXT => 14,
            VkDebugReportObjectTypeEXT::VK_DEBUG_REPORT_OBJECT_TYPE_SHADER_MODULE_EXT => 15,
            VkDebugReportObjectTypeEXT::VK_DEBUG_REPORT_OBJECT_TYPE_PIPELINE_CACHE_EXT => 16,
            VkDebugReportObjectTypeEXT::VK_DEBUG_REPORT_OBJECT_TYPE_PIPELINE_LAYOUT_EXT => 17,
            VkDebugReportObjectTypeEXT::VK_DEBUG_REPORT_OBJECT_TYPE_RENDER_PASS_EXT => 18,
            VkDebugReportObjectTypeEXT::VK_DEBUG_REPORT_OBJECT_TYPE_PIPELINE_EXT => 19,
            VkDebugReportObjectTypeEXT::VK_DEBUG_REPORT_OBJECT_TYPE_DESCRIPTOR_SET_LAYOUT_EXT => 20,
            VkDebugReportObjectTypeEXT::VK_DEBUG_REPORT_OBJECT_TYPE_SAMPLER_EXT => 21,
            VkDebugReportObjectTypeEXT::VK_DEBUG_REPORT_OBJECT_TYPE_DESCRIPTOR_POOL_EXT => 22,
            VkDebugReportObjectTypeEXT::VK_DEBUG_REPORT_OBJECT_TYPE_DESCRIPTOR_SET_EXT => 23,
            VkDebugReportObjectTypeEXT::VK_DEBUG_REPORT_OBJECT_TYPE_FRAMEBUFFER_EXT => 24,
            VkDebugReportObjectTypeEXT::VK_DEBUG_REPORT_OBJECT_TYPE_COMMAND_POOL_EXT => 25,
            VkDebugReportObjectTypeEXT::VK_DEBUG_REPORT_OBJECT_TYPE_SURFACE_KHR_EXT => 26,
            VkDebugReportObjectTypeEXT::VK_DEBUG_REPORT_OBJECT_TYPE_SWAPCHAIN_KHR_EXT => 27,
            VkDebugReportObjectTypeEXT::VK_DEBUG_REPORT_OBJECT_TYPE_DEBUG_REPORT_EXT => 28,
            VkDebugReportObjectTypeEXT::VK_DEBUG_REPORT_OBJECT_TYPE_DISPLAY_KHR_EXT => 29,
            VkDebugReportObjectTypeEXT::VK_DEBUG_REPORT_OBJECT_TYPE_DISPLAY_MODE_KHR_EXT => 30,
            VkDebugReportObjectTypeEXT::VK_DEBUG_REPORT_OBJECT_TYPE_OBJECT_TABLE_NVX_EXT => 31,
            VkDebugReportObjectTypeEXT::VK_DEBUG_REPORT_OBJECT_TYPE_INDIRECT_COMMANDS_LAYOUT_NVX_EXT =>
                32,
            VkDebugReportObjectTypeEXT::VK_DEBUG_REPORT_OBJECT_TYPE_DESCRIPTOR_UPDATE_TEMPLATE_KHR_EXT =>
                1000085000,
        }
    }
}

#[derive(Clone, Copy, Debug, PartialEq, Eq, Hash)]
pub enum VkDebugReportErrorEXT {
    VK_DEBUG_REPORT_ERROR_NONE_EXT,
    VK_DEBUG_REPORT_ERROR_CALLBACK_REF_EXT,
}

impl VkDebugReportErrorEXT {
    /// The number that stands for the variant in the native interface.
    pub open spec fn spec_value(&self) -> i32 {
        match self {
            VkDebugReportErrorEXT::VK_DEBUG_REPORT_ERROR_NONE_EXT => 0i32,
            VkDebugReportErrorEXT::VK_DEBUG_REPORT_ERROR_CALLBACK_REF_EXT => 1i32,
        }
    }

    #[verifier::when_used_as_spec(spec_value)]
    pub fn value(&self) -> (value: i32)
        ensures
            value == self.spec_value(),
    {
        match self {
            VkDebugReportErrorEXT::VK_DEBUG_REPORT_ERROR_NONE_EXT => 0,
            VkDebugReportErrorEXT::VK_DEBUG_REPORT_ERROR_CALLBACK_REF_EXT => 1,
        }
    }
}

#[derive(Clone, Copy, Debug, PartialEq, Eq, Hash)]
pub enum VkRasterizationOrderAMD {
    VK_RASTERIZATION_ORDER_STRICT_AMD,
    VK_RASTERIZATION_ORDER_RELAXED_AMD,
}

impl VkRasterizationOrderAMD {
    /// The number that stands for the variant in the native interface.
    pub open spec fn spec_value(&self) -> i32 {
        match self {
            VkRasterizationOrderAMD::VK_RASTERIZATION_ORDER_STRICT_AMD => 0i32,
            VkRasterizationOrderAMD::VK_RASTERIZATION_ORDER_RELAXED_AMD => 1i32,
        }
    }

    #[verifier::when_used_as_spec(spec_value)]
    pub fn value(&self) -> (value: i32)
        ensures
            value == self.spec_value(),
    {
        match self {
            VkRasterizationOrderAMD::VK_RASTERIZATION_ORDER_STRICT_AMD => 0,
            VkRasterizationOrderAMD::VK_RASTERIZATION_ORDER_RELAXED_AMD => 1,
        }
    }
}

#[derive(Clone, Copy, Debug, PartialEq, Eq, Hash)]
pub enum VkValidationCheckEXT {
    VK_VALIDATION_CHECK_ALL_EXT,
}

impl VkValidationCheckEXT {
    /// The number that stands for the variant in the native interface.
    pub open spec fn spec_value(&self) -> i32 {
        match self {
            VkValidationCheckEXT::VK_VALIDATION_CHECK_ALL_EXT => 0i32,
        }
    }

    #[verifier::when_used_as_spec(spec_value)]
    pub fn value(&self) -> (value: i32)
        ensures
            value == self.spec_value(),
    {
        match self {
            VkValidationCheckEXT::VK_VALIDATION_CHECK_ALL_EXT => 0,
        }
    }
}

#[derive(Clone, Copy, Debug, PartialEq, Eq, Hash)]
pub enum VkDescriptorUpdateTemplateTypeKHR {
    VK_DESCRIPTOR_UPDATE_TEMPLATE_TYPE_DESCRIPTOR_SET_KHR,
    VK_DESCRIPTOR_UPDATE_TEMPLATE_TYPE_PUSH_DESCRIPTORS_KHR,
}

impl VkDescriptorUpdateTemplateTypeKHR {
    /// The number that stands for the variant in the native interface.
    pub open spec fn spec_value(&self) -> i32 {
        match self {
            VkDescriptorUpdateTemplateTypeKHR::VK_DESCRIPTOR_UPDATE_TEMPLATE_TYPE_DESCRIPTOR_SET_KHR =>
                0i32,
            VkDescriptorUpdateTemplateTypeKHR::VK_DESCRIPTOR_UPDATE_TEMPLATE_TYPE_PUSH_DESCRIPTORS_KHR =>
                1i32,
        }
    }

    #[verifier::when_used_as_spec(spec_value)]
    pub fn value(&self) -> (value: i32)
        ensures
            value == self.spec_value(),
    {
        match self {
            VkDescriptorUpdateTemplateTypeKHR::VK_DESCRIPTOR_UPDATE_TEMPLATE_TYPE_DESCRIPTOR_SET_KHR =>
                0,
            VkDescriptorUpdateTemplateTypeKHR::VK_DESCRIPTOR_UPDATE_TEMPLATE_TYPE_PUSH_DESCRIPTORS_KHR =>
                1,
        }
    }
}

#[derive(Clone, Copy, Debug, PartialEq, Eq, Hash)]
pub enum VkIndirectCommandsTokenTypeNVX {
    VK_INDIRECT_COMMANDS_TOKEN_PIPELINE_NVX,
    VK_INDIRECT_COMMANDS_TOKEN_DESCRIPTOR_SET_NVX,
    VK_INDIRECT_COMMANDS_TOKEN_INDEX_BUFFER_NVX,
    VK_INDIRECT_COMMANDS_TOKEN_VERTEX_BUFFER_NVX,
    VK_INDIRECT_COMMANDS_TOKEN_PUSH_CONSTANT_NVX,
    VK_INDIRECT_COMMANDS_TOKEN_DRAW_INDEXED_NVX,
    VK_INDIRECT_COMMANDS_TOKEN_DRAW_NVX,
    VK_INDIRECT_COMMANDS_TOKEN_DISPATCH_NVX,
}

impl VkIndirectCommandsTokenTypeNVX {
    /// The number that stands for the variant in the native interface.
    pub open spec fn spec_value(&self) -> i32 {
        match self {
            VkIndirectCommandsTokenTypeNVX::VK_INDIRECT_COMMANDS_TOKEN_PIPELINE_NVX => 0i32,
            VkIndirectCommandsTokenTypeNVX::VK_INDIRECT_COMMANDS_TOKEN_DESCRIPTOR_SET_NVX => 1i32,
            VkIndirectCommandsTokenTypeNVX::VK_INDIRECT_COMMANDS_TOKEN_INDEX_BUFFER_NVX => 2i32,
            VkIndirectCommandsTokenTypeNVX::VK_INDIRECT_COMMANDS_TOKEN_VERTEX_BUFFER_NVX => 3i32,
            VkIndirectCommandsTokenTypeNVX::VK_INDIRECT_COMMANDS_TOKEN_PUSH_CONSTANT_NVX => 4i32,
            VkIndirectCommandsTokenTypeNVX::VK_INDIRECT_COMMANDS_TOKEN_DRAW_INDEXED_NVX => 5i32,
            VkIndirectCommandsTokenTypeNVX::VK_INDIRECT_COMMANDS_TOKEN_DRAW_NVX => 6i32,
            VkIndirectCommandsTokenTypeNVX::VK_INDIRECT_COMMANDS_TOKEN_DISPATCH_NVX => 7i32,
        }
    }

    #[verifier::when_used_as_spec(spec_value)]
    pub fn value(&self) -> (value: i32)
        ensures
            value == self.spec_value(),
    {
        match self {
            VkIndirectCommandsTokenTypeNVX::VK_INDIRECT_COMMANDS_TOKEN_PIPELINE_NVX => 0,
            VkIndirectCommandsTokenTypeNVX::VK_INDIRECT_COMMANDS_TOKEN_DESCRIPTOR_SET_NVX => 1,
            VkIndirectCommandsTokenTypeNVX::VK_INDIRECT_COMMANDS_TOKEN_INDEX_BUFFER_NVX => 2,
            VkIndirectCommandsTokenTypeNVX::VK_INDIRECT_COMMANDS_TOKEN_VERTEX_BUFFER_NVX => 3,
            VkIndirectCommandsTokenTypeNVX::VK_INDIRECT_COMMANDS_TOKEN_PUSH_CONSTANT_NVX => 4,
            VkIndirectCommandsTokenTypeNVX::VK_INDIRECT_COMMANDS_TOKEN_DRAW_INDEXED_NVX => 5,
            VkIndirectCommandsTokenTypeNVX::VK_INDIRECT_COMMANDS_TOKEN_DRAW_NVX => 6,
            VkIndirectCommandsTokenTypeNVX::VK_INDIRECT_COMMANDS_TOKEN_DISPATCH_NVX => 7,
        }
    }
}

#[derive(Clone, Copy, Debug, PartialEq, Eq, Hash)]
pub enum VkObjectEntryTypeNVX {
    VK_OBJECT_ENTRY_DESCRIPTOR_SET_NVX,
    VK_OBJECT_ENTRY_PIPELINE_NVX,
    VK_OBJECT_ENTRY_INDEX_BUFFER_NVX,
    VK_OBJECT_ENTRY_VERTEX_BUFFER_NVX,
    VK_OBJECT_ENTRY_PUSH_CONSTANT_NVX,
}

impl VkObjectEntryTypeNVX {
    /// The number that stands for the variant in the native interface.
    pub open spec fn spec_value(&self) -> i32 {
        match self {
            VkObjectEntryTypeNVX::VK_OBJECT_ENTRY_DESCRIPTOR_SET_NVX => 0i32,
            VkObjectEntryTypeNVX::VK_OBJECT_ENTRY_PIPELINE_NVX => 1i32,
            VkObjectEntryTypeNVX::VK_OBJECT_ENTRY_INDEX_BUFFER_NVX => 2i32,
            VkObjectEntryTypeNVX::VK_OBJECT_ENTRY_VERTEX_BUFFER_NVX => 3i32,
            VkObjectEntryTypeNVX::VK_OBJECT_ENTRY_PUSH_CONSTANT_NVX => 4i32,
        }
    }

    #[verifier::when_used_as_spec(spec_value)]
    pub fn value(&self) -> (value: i32)
        ensures
            value == self.spec_value(),
    {
        match self {
            VkObjectEntryTypeNVX::VK_OBJECT_ENTRY_DESCRIPTOR_SET_NVX => 0,
            VkObjectEntryTypeNVX::VK_OBJECT_ENTRY_PIPELINE_NVX => 1,
            VkObjectEntryTypeNVX::VK_OBJECT_ENTRY_INDEX_BUFFER_NVX => 2,
            VkObjectEntryTypeNVX::VK_OBJECT_ENTRY_VERTEX_BUFFER_NVX => 3,
            VkObjectEntryTypeNVX::VK_OBJECT_ENTRY_PUSH_CONSTANT_NVX => 4,
        }
    }
}

#[derive(Clone, Copy, Debug, PartialEq, Eq, Hash)]
pub enum VkDisplayPowerStateEXT {
    VK_DISPLAY_POWER_STATE_OFF_EXT,
    VK_DISPLAY_POWER_STATE_SUSPEND_EXT,
    VK_DISPLAY_POWER_STATE_ON_EXT,
}

impl VkDisplayPowerStateEXT {
    /// The number that stands for the variant in the native interface.
    pub open spec fn spec_value(&self) -> i32 {
        match self {
            VkDisplayPowerStateEXT::VK_DISPLAY_POWER_STATE_OFF_EXT => 0i32,
            VkDisplayPowerStateEXT::VK_DISPLAY_POWER_STATE_SUSPEND_EXT => 1i32,
            VkDisplayPowerStateEXT::VK_DISPLAY_POWER_STATE_ON_EXT => 2i32,
        }
    }

    #[verifier::when_used_as_spec(spec_value)]
    pub fn value(&self) -> (value: i32)
        ensures
            value == self.spec_value(),
    {
        match self {
            VkDisplayPowerStateEXT::VK_DISPLAY_POWER_STATE_OFF_EXT => 0,
            VkDisplayPowerStateEXT::VK_DISPLAY_POWER_STATE_SUSPEND_EXT => 1,
            VkDisplayPowerStateEXT::VK_DISPLAY_POWER_STATE_ON_EXT => 2,
        }
    }
}

#[derive(Clone, Copy, Debug, PartialEq, Eq, Hash)]
pub enum VkDeviceEventTypeEXT {
    VK_DEVICE_EVENT_TYPE_DISPLAY_HOTPLUG_EXT,
}

impl VkDeviceEventTypeEXT {
    /// The number that stands for the variant in the native interface.
    pub open spec fn spec_value(&self) -> i32 {
        match self {
            VkDeviceEventTypeEXT::VK_DEVICE_EVENT_TYPE_DISPLAY_HOTPLUG_EXT => 0i32,
        }
    }

    #[verifier::when_used_as_spec(spec_value)]
    pub fn value(&self) -> (value: i32)
        ensures
            value == self.spec_value(),
    {
        match self {
            VkDeviceEventTypeEXT::VK_DEVICE_EVENT_TYPE_DISPLAY_HOTPLUG_EXT => 0,
        }
    }
}

#[derive(Clone, Copy, Debug, PartialEq, Eq, Hash)]
pub enum VkDisplayEventTypeEXT {
    VK_DISPLAY_EVENT_TYPE_FIRST_PIXEL_OUT_EXT,
}

impl VkDisplayEventTypeEXT {
    /// The number that stands for the variant in the native interface.
    pub open spec fn spec_value(&self) -> i32 {
        match self {
            VkDisplayEventTypeEXT::VK_DISPLAY_EVENT_TYPE_FIRST_PIXEL_OUT_EXT => 0i32,
        }
    }

    #[verifier::when_used_as_spec(spec_value)]
    pub fn value(&self) -> (value: i32)
        ensures
            value == self.spec_value(),
    {
        match self {
            VkDisplayEventTypeEXT::VK_DISPLAY_EVENT_TYPE_FIRST_PIXEL_OUT_EXT => 0,
        }
    }
}

#[derive(Clone, Copy, Debug, PartialEq, Eq, Hash)]
pub enum VkViewportCoordinateSwizzleNV {
    VK_VIEWPORT_COORDINATE_SWIZZLE_POSITIVE_X_NV,
    VK_VIEWPORT_COORDINATE_SWIZZLE_NEGATIVE_X_NV,
    VK_VIEWPORT_COORDINATE_SWIZZLE_POSITIVE_Y_NV,
    VK_VIEWPORT_COORDINATE_SWIZZLE_NEGATIVE_Y_NV,
    VK_VIEWPORT_COORDINATE_SWIZZLE_POSITIVE_Z_NV,
    VK_VIEWPORT_COORDINATE_SWIZZLE_NEGATIVE_Z_NV,
    VK_VIEWPORT_COORDINATE_SWIZZLE_POSITIVE_W_NV,
    VK_VIEWPORT_COORDINATE_SWIZZLE_NEGATIVE_W_NV,
}

impl VkViewportCoordinateSwizzleNV {
    /// The number that stands for the variant in the native interface.
    pub open spec fn spec_value(&self) -> i32 {
        match self {
            VkViewportCoordinateSwizzleNV::VK_VIEWPORT_COORDINATE_SWIZZLE_POSITIVE_X_NV => 0i32,
            VkViewportCoordinateSwizzleNV::VK_VIEWPORT_COORDINATE_SWIZZLE_NEGATIVE_X_NV => 1i32,
            VkViewportCoordinateSwizzleNV::VK_VIEWPORT_COORDINATE_SWIZZLE_POSITIVE_Y_NV => 2i32,
            VkViewportCoordinateSwizzleNV::VK_VIEWPORT_COORDINATE_SWIZZLE_NEGATIVE_Y_NV => 3i32,
            VkViewportCoordinateSwizzleNV::VK_VIEWPORT_COORDINATE_SWIZZLE_POSITIVE_Z_NV => 4i32,
            VkViewportCoordinateSwizzleNV::VK_VIEWPORT_COORDINATE_SWIZZLE_NEGATIVE_Z_NV => 5i32,
            VkViewportCoordinateSwizzleNV::VK_VIEWPORT_COORDINATE_SWIZZLE_POSITIVE_W_NV => 6i32,
            VkViewportCoordinateSwizzleNV::VK_VIEWPORT_COORDINATE_SWIZZLE_NEGATIVE_W_NV => 7i32,
        }
    }

    #[verifier::when_used_as_spec(spec_value)]
    pub fn value(&self) -> (value: i32)
        ensures
            value == self.spec_value(),
    {
        match self {
            VkViewportCoordinateSwizzleNV::VK_VIEWPORT_COORDINATE_SWIZZLE_POSITIVE_X_NV => 0,
            VkViewportCoordinateSwizzleNV::VK_VIEWPORT_COORDINATE_SWIZZLE_NEGATIVE_X_NV => 1,
            VkViewportCoordinateSwizzleNV::VK_VIEWPORT_COORDINATE_SWIZZLE_POSITIVE_Y_NV => 2,
            VkViewportCoordinateSwizzleNV::VK_VIEWPORT_COORDINATE_SWIZZLE_NEGATIVE_Y_NV => 3,
            VkViewportCoordinateSwizzleNV::VK_VIEWPORT_COORDINATE_SWIZZLE_POSITIVE_Z_NV => 4,
            VkViewportCoordinateSwizzleNV::VK_VIEWPORT_COORDINATE_SWIZZLE_NEGATIVE_Z_NV => 5,
            VkViewportCoordinateSwizzleNV::VK_VIEWPORT_COORDINATE_SWIZZLE_POSITIVE_W_NV => 6,
            VkViewportCoordinateSwizzleNV::VK_VIEWPORT_COORDINATE_SWIZZLE_NEGATIVE_W_NV => 7,
        }
    }
}

#[derive(Clone, Copy, Debug, PartialEq, Eq, Hash)]
pub enum VkDiscardRectangleModeEXT {
    VK_DISCARD_RECTANGLE_MODE_INCLUSIVE_EXT,
    VK_DISCARD_RECTANGLE_MODE_EXCLUSIVE_EXT,
}

impl VkDiscardRectangleModeEXT {
    /// The number that stands for the variant in the native interface.
    pub open spec fn spec_value(&self) -> i32 {
        match self {
            VkDiscardRectangleModeEXT::VK_DISCARD_RECTANGLE_MODE_INCLUSIVE_EXT => 0i32,
            VkDiscardRectangleModeEXT::VK_DISCARD_RECTANGLE_MODE_EXCLUSIVE_EXT => 1i32,
        }
    }

    #[verifier::when_used_as_spec(spec_value)]
    pub fn value(&self) -> (value: i32)
        ensures
            value == self.spec_value(),
    {
        match self {
            VkDiscardRectangleModeEXT::VK_DISCARD_RECTANGLE_MODE_INCLUSIVE_EXT => 0,
            VkDiscardRectangleModeEXT::VK_DISCARD_RECTANGLE_MODE_EXCLUSIVE_EXT => 1,
        }
    }
}

} // verus!
