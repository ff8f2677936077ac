use vstd::prelude::*;

verus! {

pub type VkFlags = u32;

pub type VkBool32 = u32;

pub type VkDeviceSize = u64;

pub type VkSampleMask = u32;

// Dispatchable handles are as wide as a pointer.
pub type VkInstance = usize;

pub type VkPhysicalDevice = usize;

pub type VkDevice = usize;

pub type VkQueue = usize;

pub type VkCommandBuffer = usize;

// Non-dispatchable handles are 64 bits wide on every platform.
pub type VkSemaphore = u64;

pub type VkFence = u64;

pub type VkDeviceMemory = u64;

pub type VkBuffer = u64;

pub type VkImage = u64;

pub type VkEvent = u64;

pub type VkQueryPool = u64;

pub type VkBufferView = u64;

pub type VkImageView = u64;

pub type VkShaderModule = u64;

pub type VkPipelineCache = u64;

pub type VkPipelineLayout = u64;

pub type VkRenderPass = u64;

pub type VkPipeline = u64;

pub type VkDescriptorSetLayout = u64;

pub type VkSampler = u64;

pub type VkDescriptorPool = u64;

pub type VkDescriptorSet = u64;

pub type VkFramebuffer = u64;

pub type VkCommandPool = u64;

/// The handle that stands for "no instance": commands that need no instance
/// are resolved against it.
pub const NO_INSTANCE: VkInstance = 0;

pub const VK_REMAINING_MIP_LEVELS: u32 = 0xFFFF_FFFF;

pub const VK_REMAINING_ARRAY_LAYERS: u32 = 0xFFFF_FFFF;

pub const VK_WHOLE_SIZE: u64 = 0xFFFF_FFFF_FFFF_FFFF;

pub const VK_ATTACHMENT_UNUSED: u32 = 0xFFFF_FFFF;

pub const VK_TRUE: u32 = 1;

pub const VK_FALSE: u32 = 0;

pub const VK_QUEUE_FAMILY_IGNORED: u32 = 0xFFFF_FFFF;

pub const VK_SUBPASS_EXTERNAL: u32 = 0xFFFF_FFFF;

pub const VK_MAX_PHYSICAL_DEVICE_NAME_SIZE: u32 = 256;

pub const VK_UUID_SIZE: u32 = 16;

pub const VK_MAX_MEMORY_TYPES: u32 = 32;

pub const VK_MAX_MEMORY_HEAPS: u32 = 16;

pub const VK_MAX_EXTENSION_NAME_SIZE: u32 = 256;

pub const VK_MAX_DESCRIPTION_SIZE: u32 = 256;

// Handles and limits of the extensions.
pub type VkSurfaceKHR = u64;

pub type VkSwapchainKHR = u64;

pub type VkDisplayKHR = u64;

pub type VkDisplayModeKHR = u64;

pub type VkDebugReportCallbackEXT = u64;

pub type VkDescriptorUpdateTemplateKHR = u64;

pub type VkObjectTableNVX = u64;

pub type VkIndirectCommandsLayoutNVX = u64;

pub const VK_MAX_DEVICE_GROUP_SIZE_KHX: u32 = 32;

pub const VK_LUID_SIZE_KHX: u32 = 8;

} // verus!
