use vulkan::core_enums::{VkFormat, VkImageLayout, VkResult, VkStructureType};
use vulkan::core_flags::{
    VkInstanceCreateFlags, VkQueueFlagBits, VkQueueFlags, VkShaderStageFlagBits,
    VkShaderStageFlags,
};
use vulkan::core_structs::{
    VkClearColorValue, VkClearValue, VkExtent2D, VkExtent3D, VkImageBlit,
    VkImageSubresourceLayers, VkOffset2D, VkOffset3D, VkQueueFamilyProperties, VkRect2D,
};
use vulkan::core_flags::VkImageAspectFlags;
use vulkan::extension_enums::{VkColorSpaceKHR, VkPresentModeKHR};
use vulkan::extension_flags::{VkSurfaceTransformFlagBitsKHR, VkSurfaceTransformFlagsKHR};
use vulkan::extension_structs::VkSurfaceFormatKHR;
use vulkan::flags::FlagBits;
use vulkan::handles::{VK_ATTACHMENT_UNUSED, VK_FALSE, VK_TRUE, VK_WHOLE_SIZE};
use vulkan::version::VK_MAKE_VERSION;

#[test]
fn make_version_packs_the_three_parts() {
    assert_eq!(VK_MAKE_VERSION(1, 0, 48), 4_194_352);
    assert_eq!(VK_MAKE_VERSION(1, 2, 3), 4_202_499);
    assert_eq!(VK_MAKE_VERSION(0, 0, 0), 0);
    assert_eq!(VK_MAKE_VERSION(1023, 1023, 4095), u32::MAX);
    assert_eq!(VK_MAKE_VERSION(1, 0, 0), 1 << 22);
    assert_eq!(VK_MAKE_VERSION(0, 1, 0), 1 << 12);
}

#[test]
fn make_version_lets_wide_parts_spill_upwards() {
    // A patch level of thirteen bits reaches into the minor version.
    assert_eq!(VK_MAKE_VERSION(0, 0, 4096), VK_MAKE_VERSION(0, 1, 0));
    // A major version of eleven bits loses its top bit.
    assert_eq!(VK_MAKE_VERSION(1024, 0, 0), 0);
    assert_eq!(VK_MAKE_VERSION(1025, 0, 7), VK_MAKE_VERSION(1, 0, 7));
}

#[test]
fn make_version_keeps_the_order_of_versions() {
    assert!(VK_MAKE_VERSION(1, 0, 48) < VK_MAKE_VERSION(1, 1, 0));
    assert!(VK_MAKE_VERSION(1, 1, 0) < VK_MAKE_VERSION(2, 0, 0));
    let packed = VK_MAKE_VERSION(3, 7, 11);
    assert_eq!(packed >> 22, 3);
    assert_eq!((packed >> 12) & 0x3ff, 7);
    assert_eq!(packed & 0xfff, 11);
}

#[test]
fn constants() {
    assert_eq!(VK_TRUE, 1);
    assert_eq!(VK_FALSE, 0);
    assert_eq!(VK_WHOLE_SIZE, u64::MAX);
    assert_eq!(VK_ATTACHMENT_UNUSED, u32::MAX);
}

#[test]
fn result_codes() {
    assert_eq!(VkResult::VK_SUCCESS.value(), 0);
    assert_eq!(VkResult::VK_INCOMPLETE.value(), 5);
    assert_eq!(VkResult::VK_ERROR_DEVICE_LOST.value(), -4);
    assert_eq!(VkResult::VK_ERROR_SURFACE_LOST_KHR.value(), -1_000_000_000);
    assert_eq!(VkResult::VK_SUBOPTIMAL_KHR.value(), 1_000_001_003);
    assert_eq!(VkResult::VK_ERROR_INVALID_EXTERNAL_HANDLE_KHX.value(), -1_000_072_003);
}

#[test]
fn enumeration_values() {
    assert_eq!(VkStructureType::VK_STRUCTURE_TYPE_APPLICATION_INFO.value(), 0);
    assert_eq!(VkStructureType::VK_STRUCTURE_TYPE_DEVICE_CREATE_INFO.value(), 3);
    assert_eq!(VkFormat::VK_FORMAT_UNDEFINED.value(), 0);
    assert_eq!(VkFormat::VK_FORMAT_R8G8B8A8_UNORM.value(), 37);
    assert_eq!(VkImageLayout::VK_IMAGE_LAYOUT_PRESENT_SRC_KHR.value(), 1_000_001_002);
    assert_eq!(VkPresentModeKHR::VK_PRESENT_MODE_FIFO_KHR.value(), 2);
    assert_eq!(VkColorSpaceKHR::VK_COLOR_SPACE_PASS_THROUGH_EXT.value(), 1_000_104_013);
}

#[test]
fn flag_bits() {
    assert_eq!(VkQueueFlagBits::VK_QUEUE_GRAPHICS_BIT.bits(), 1);
    assert_eq!(VkQueueFlagBits::VK_QUEUE_COMPUTE_BIT.bits(), 2);
    assert_eq!(VkQueueFlagBits::VK_QUEUE_TRANSFER_BIT.bits(), 4);
    assert_eq!(VkQueueFlagBits::VK_QUEUE_SPARSE_BINDING_BIT.bits(), 8);
    assert_eq!(VkShaderStageFlagBits::VK_SHADER_STAGE_ALL_GRAPHICS.bits(), 0x1F);
    assert_eq!(VkShaderStageFlagBits::VK_SHADER_STAGE_ALL.bits(), 0x7FFF_FFFF);
    assert_eq!(
        VkSurfaceTransformFlagBitsKHR::VK_SURFACE_TRANSFORM_INHERIT_BIT_KHR.bits(),
        0x100
    );
}

#[test]
fn flag_sets_combine_bit_by_bit() {
    let none = VkQueueFlags::none();
    assert_eq!(none.mask(), 0);
    let graphics = none | VkQueueFlagBits::VK_QUEUE_GRAPHICS_BIT;
    let transfer = none | VkQueueFlagBits::VK_QUEUE_TRANSFER_BIT;
    let both = graphics | transfer;
    assert_eq!(both.mask(), 5);
    assert!(both.contains(VkQueueFlagBits::VK_QUEUE_GRAPHICS_BIT));
    assert!(both.contains(VkQueueFlagBits::VK_QUEUE_TRANSFER_BIT));
    assert!(!both.contains(VkQueueFlagBits::VK_QUEUE_COMPUTE_BIT));
    assert_eq!((both & graphics).mask(), 1);
    assert_eq!((both & VkQueueFlagBits::VK_QUEUE_TRANSFER_BIT).mask(), 4);
    assert_eq!((graphics & transfer).mask(), 0);
    assert!(graphics | transfer == transfer | graphics);
    assert!(both | none == both);
    assert!((both & none) == none);
    assert!(graphics != transfer);
}

#[test]
fn a_flag_of_several_bits_is_held_only_whole() {
    let vertex = VkShaderStageFlags::none() | VkShaderStageFlagBits::VK_SHADER_STAGE_VERTEX_BIT;
    assert!(!vertex.contains(VkShaderStageFlagBits::VK_SHADER_STAGE_ALL_GRAPHICS));
    let all = vertex | VkShaderStageFlagBits::VK_SHADER_STAGE_ALL_GRAPHICS;
    assert!(all.contains(VkShaderStageFlagBits::VK_SHADER_STAGE_ALL_GRAPHICS));
    assert!(all.contains(VkShaderStageFlagBits::VK_SHADER_STAGE_FRAGMENT_BIT));
    assert!(!all.contains(VkShaderStageFlagBits::VK_SHADER_STAGE_COMPUTE_BIT));
}

#[test]
fn a_kind_without_flags_has_only_the_empty_set() {
    let none = VkInstanceCreateFlags::none();
    assert_eq!(none.mask(), 0);
    assert_eq!((none | none).mask(), 0);
    assert_eq!((none & none).mask(), 0);
    assert!(none == VkInstanceCreateFlags::none());
}

#[test]
fn clear_colour_words() {
    let colour = VkClearColorValue::from_uint32([0, 1, 0x7FFF_FFFF, 0xFFFF_FFFF]);
    assert_eq!(colour.uint32(), &[0, 1, 0x7FFF_FFFF, 0xFFFF_FFFF]);
    assert_eq!(colour.int32(), [0, 1, i32::MAX, -1]);
    let high = VkClearColorValue::from_uint32([0x8000_0000, 0x8000_0001, 2, 3]);
    assert_eq!(high.int32(), [i32::MIN, i32::MIN + 1, 2, 3]);
    let value = VkClearValue::from_color(colour);
    assert_eq!(value.color().uint32(), colour.uint32());
}

#[test]
fn clear_colour_words_change_in_place() {
    let mut colour = VkClearColorValue::from_uint32([1, 2, 3, 4]);
    colour.uint32_mut()[2] = 0xFFFF_FFFE;
    assert_eq!(colour.uint32(), &[1, 2, 0xFFFF_FFFE, 4]);
    assert_eq!(colour.int32(), [1, 2, -2, 4]);
    let mut value = VkClearValue::from_color(colour);
    value.color_mut().uint32_mut()[0] = 9;
    assert_eq!(value.color().uint32(), &[9, 2, 0xFFFF_FFFE, 4]);
    *value.color_mut() = VkClearColorValue::from_uint32([0; 4]);
    assert_eq!(value.color().int32(), [0, 0, 0, 0]);
}

#[test]
fn plain_structures_hold_their_fields() {
    let rect = VkRect2D {
        offset: VkOffset2D { x: -3, y: 4 },
        extent: VkExtent2D { width: 640, height: 480 },
    };
    assert_eq!(rect.offset.x, -3);
    assert_eq!(rect.extent.height, 480);
    let family = VkQueueFamilyProperties {
        queueFlags: VkQueueFlags::none() | VkQueueFlagBits::VK_QUEUE_COMPUTE_BIT,
        queueCount: 2,
        timestampValidBits: 64,
        minImageTransferGranularity: VkExtent3D { width: 1, height: 1, depth: 1 },
    };
    assert!(family.queueFlags.contains(VkQueueFlagBits::VK_QUEUE_COMPUTE_BIT));
    assert_eq!(family.minImageTransferGranularity.depth, 1);
    let layers = VkImageSubresourceLayers {
        aspectMask: VkImageAspectFlags::none(),
        mipLevel: 0,
        baseArrayLayer: 0,
        layerCount: 1,
    };
    let corner = VkOffset3D { x: 0, y: 0, z: 0 };
    let far = VkOffset3D { x: 8, y: 8, z: 1 };
    let blit = VkImageBlit {
        srcSubresource: layers,
        srcOffsets: [corner, far],
        dstSubresource: layers,
        dstOffsets: [corner, far],
    };
    assert_eq!(blit.srcOffsets[1].x, 8);
    let format = VkSurfaceFormatKHR {
        format: VkFormat::VK_FORMAT_B8G8R8A8_UNORM,
        colorSpace: VkColorSpaceKHR::VK_COLOR_SPACE_SRGB_NONLINEAR_KHR,
    };
    assert_eq!(format.format, VkFormat::VK_FORMAT_B8G8R8A8_UNORM);
    let transforms = VkSurfaceTransformFlagsKHR::none()
        | VkSurfaceTransformFlagBitsKHR::VK_SURFACE_TRANSFORM_IDENTITY_BIT_KHR;
    assert_eq!(transforms.mask(), 1);
}
