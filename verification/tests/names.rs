use vk_generator::lowering::lower_command_name;
use vk_generator::lowering::lower_const_name;
use vk_generator::lowering::lower_member_name;
use vk_generator::lowering::lower_type_name;
use vk_generator::lowering::lower_variant_names;
use vk_generator::names::camel_case;
use vk_generator::names::common_len_of;
use vk_generator::names::derived_prefix_of;
use vk_generator::names::escape;
use vk_generator::names::has_prefix;
use vk_generator::names::is_usable;
use vk_generator::names::shared_prefix;
use vk_generator::names::shout_case;
use vk_generator::names::snake_case;
use vk_generator::names::strip_prefix;
use vk_generator::text::parse_int;
use vk_generator::text::parse_unsigned;
use vk_generator::text::trim;
use vk_generator::GenConfig;
use vk_generator::VariantPaddingConfig;
use vk_generator::VkVersion;

fn s(bytes: Vec<u8>) -> String {
    String::from_utf8(bytes).unwrap()
}

fn names(list: &[&str]) -> Vec<Vec<u8>> {
    list.iter().map(|n| n.as_bytes().to_vec()).collect()
}

fn lowered(config: &GenConfig, owner: &str, bitmask: bool, list: &[&str]) -> Vec<String> {
    lower_variant_names(config, owner.as_bytes(), bitmask, &names(list)).into_iter().map(s).collect()
}

#[test]
fn prefixes_are_taken_off_only_where_they_stand() {
    assert_eq!(strip_prefix(b"VkInstance", b"Vk"), b"Instance");
    assert_eq!(strip_prefix(b"uint32_t", b"Vk"), b"uint32_t");
    assert_eq!(strip_prefix(b"Vk", b"Vk"), b"Vk");
    assert_eq!(strip_prefix(b"V", b"Vk"), b"V");
    assert!(has_prefix(b"VK_SUCCESS", b"VK_"));
    assert!(has_prefix(b"VK_", b""));
    assert!(!has_prefix(b"vk_", b"VK_"));
}

#[test]
fn casing_follows_the_rules() {
    assert_eq!(s(snake_case(b"CreateInstance")), "create_instance");
    assert_eq!(s(snake_case(b"pNext")), "p_next");
    assert_eq!(s(snake_case(b"sType")), "s_type");
    assert_eq!(s(snake_case(b"ppEnabledLayerNames")), "pp_enabled_layer_names");
    assert_eq!(s(snake_case(b"DestroySurfaceKHR")), "destroy_surface_khr");
    assert_eq!(s(snake_case(b"x11Display2D")), "x11_display2_d");
    assert_eq!(s(snake_case(b"")), "");
    assert_eq!(s(shout_case(b"vk_image_type")), "VK_IMAGE_TYPE");
    assert_eq!(s(camel_case(b"ERROR_OUT_OF_HOST_MEMORY")), "ErrorOutOfHostMemory");
    assert_eq!(s(camel_case(b"R8G8B8_UNORM")), "R8g8b8Unorm");
    assert_eq!(s(camel_case(b"__A__b_")), "AB");
    assert_eq!(s(derived_prefix_of(b"VkImageType")), "VK_IMAGE_TYPE_");
    assert_eq!(s(derived_prefix_of(b"VkColorSpaceKHR")), "VK_COLOR_SPACE_KHR_");
    assert_eq!(s(escape(b"type".to_vec())), "type_");
    assert_eq!(s(escape(b"types".to_vec())), "types");
    assert!(is_usable(b"a1"));
    assert!(!is_usable(b"1a"));
    assert!(!is_usable(b""));
}

#[test]
fn the_shared_prefix_ends_at_an_underscore() {
    assert_eq!(common_len_of(b"VK_QUEUE_GRAPHICS_BIT", b"VK_QUEUE_COMPUTE_BIT"), 9);
    assert_eq!(common_len_of(b"", b"abc"), 0);
    assert_eq!(common_len_of(b"abc", b"abc"), 3);
    assert_eq!(shared_prefix(&names(&["VK_QUEUE_GRAPHICS_BIT", "VK_QUEUE_COMPUTE_BIT", "VK_QUEUE_GO"])), 9);
    assert_eq!(shared_prefix(&names(&["VK_CULL_MODE_FRONT", "VK_CULL_MODE_FRONT_AND_BACK"])), 13);
    assert_eq!(shared_prefix(&names(&["alpha", "beta"])), 0);
    assert_eq!(shared_prefix(&names(&["VK_ONLY_ONE"])), 8);
    assert_eq!(shared_prefix(&names(&[])), 0);
}

#[test]
fn names_are_lowered_as_the_configuration_asks() {
    let default = GenConfig::default();
    assert_eq!(default, GenConfig::new());
    assert!(!default.remove_type_prefix);
    assert!(default.remove_command_prefix && default.snake_case_commands && default.wrap_bitmasks);
    assert_eq!(default.variant_padding, VariantPaddingConfig::RemovePrefix);
    assert_eq!(s(lower_type_name(&default, b"VkInstance")), "VkInstance");
    assert_eq!(s(lower_command_name(&default, b"vkCreateInstance")), "create_instance");
    assert_eq!(s(lower_member_name(&default, b"pNext")), "p_next");
    assert_eq!(s(lower_member_name(&default, b"type")), "type_");
    assert_eq!(s(lower_const_name(&default, b"VK_MAX_NAME")), "MAX_NAME");
    assert_eq!(s(lower_const_name(&default, b"VK_1D")), "VK_1D");
    let other = GenConfig {
        remove_type_prefix: true,
        remove_command_prefix: false,
        snake_case_commands: false,
        snake_case_members: false,
        remove_const_prefix: false,
        ..GenConfig::default()
    };
    assert_eq!(s(lower_type_name(&other, b"VkInstance")), "Instance");
    assert_eq!(s(lower_type_name(&other, b"VkResult")), "Result");
    assert_eq!(s(lower_type_name(&other, b"uint32_t")), "uint32_t");
    assert_eq!(s(lower_command_name(&other, b"vkCreateInstance")), "vkCreateInstance");
    assert_eq!(s(lower_member_name(&other, b"pNext")), "pNext");
    assert_eq!(s(lower_const_name(&other, b"VK_MAX_NAME")), "VK_MAX_NAME");
    let snake_only = GenConfig { remove_command_prefix: false, ..GenConfig::default() };
    assert_eq!(s(lower_command_name(&snake_only, b"vkCreateInstance")), "vk_create_instance");
}

#[test]
fn variants_lose_their_prefix_and_change_their_case() {
    let default = GenConfig::default();
    assert_eq!(
        lowered(&default, "VkResult", false, &["VK_SUCCESS", "VK_ERROR_OUT_OF_HOST_MEMORY"]),
        ["Success", "ErrorOutOfHostMemory"]
    );
    assert_eq!(
        lowered(&default, "VkImageType", false, &["VK_IMAGE_TYPE_1D", "VK_IMAGE_TYPE_CUBE"]),
        ["VkImageType1d", "Cube"]
    );
    assert_eq!(
        lowered(&default, "VkQueueFlagBits", true, &["VK_QUEUE_GRAPHICS_BIT", "VK_QUEUE_COMPUTE_BIT"]),
        ["GraphicsBit", "ComputeBit"]
    );
    let keep = GenConfig {
        remove_vk_result_prefix: false,
        remove_bitmask_prefix: false,
        variant_padding: VariantPaddingConfig::Keep,
        camel_case_variants: false,
        ..GenConfig::default()
    };
    assert_eq!(lowered(&keep, "VkResult", false, &["VK_SUCCESS"]), ["VK_SUCCESS"]);
    assert_eq!(lowered(&keep, "VkImageType", false, &["VK_IMAGE_TYPE_CUBE"]), ["VK_IMAGE_TYPE_CUBE"]);
    assert_eq!(lowered(&keep, "VkQueueFlagBits", true, &["VK_QUEUE_A", "VK_QUEUE_B"]), ["VK_QUEUE_A", "VK_QUEUE_B"]);
    let plain = GenConfig { camel_case_variants: false, ..GenConfig::default() };
    assert_eq!(lowered(&plain, "VkImageType", false, &["VK_IMAGE_TYPE_CUBE"]), ["CUBE"]);
}

#[test]
fn variants_that_would_collide_keep_their_prefix() {
    let default = GenConfig::default();
    assert_eq!(
        lowered(&default, "VkThing", false, &["VK_THING_ONE", "ONE", "VK_THING_TWO"]),
        ["VkThingOne", "One", "Two"]
    );
    assert_eq!(
        lowered(&default, "VkResult", false, &["VK_A_B", "VK_A__B", "VK_AB", "VK_C"]),
        ["VkAB", "VkAB", "Ab", "C"]
    );
}

#[test]
fn integers_are_read_in_decimal_and_hexadecimal() {
    assert_eq!(parse_int(b"0"), Some(0));
    assert_eq!(parse_int(b"-1"), Some(-1));
    assert_eq!(parse_int(b"1000000000"), Some(1000000000));
    assert_eq!(parse_int(b"0x7FFFFFFF"), Some(0x7FFFFFFF));
    assert_eq!(parse_int(b"0Xff"), Some(255));
    assert_eq!(parse_int(b"-0x10"), Some(-16));
    assert_eq!(parse_int(b""), None);
    assert_eq!(parse_int(b"-"), None);
    assert_eq!(parse_int(b"0x"), None);
    assert_eq!(parse_int(b"12a"), None);
    assert_eq!(parse_int(b"+1"), None);
    assert_eq!(parse_int(b"1.0"), None);
    assert_eq!(parse_int(b"9223372036854775807"), Some(isize::MAX));
    assert_eq!(parse_int(b"-9223372036854775808"), Some(isize::MIN));
    assert_eq!(parse_int(b"9223372036854775808"), None);
    assert_eq!(parse_int(b"99999999999999999999999999999999999999999999"), None);
    assert_eq!(parse_unsigned(b"255", 255), Some(255));
    assert_eq!(parse_unsigned(b"256", 255), None);
    assert_eq!(parse_unsigned(b"18446744073709551615", u64::MAX), Some(u64::MAX));
    assert_eq!(parse_unsigned(b"18446744073709551616", u64::MAX), None);
    assert_eq!(parse_unsigned(b"007", 10), Some(7));
}

#[test]
fn white_space_is_trimmed_at_both_ends() {
    assert_eq!(trim(b"  const \n\t"), b"const");
    assert_eq!(trim(b"* const*"), b"* const*");
    assert_eq!(trim(b" \r\n "), b"");
    assert_eq!(trim(b""), b"");
    assert_eq!(trim(b"a"), b"a");
}

#[test]
fn versions_are_read_from_their_text() {
    assert_eq!(VkVersion::from_str("1.0"), VkVersion(1, 0));
    assert_eq!(VkVersion::from_str("1.1"), VkVersion(1, 1));
    assert_eq!(VkVersion::from_str("12"), VkVersion(12, 0));
    assert_eq!(VkVersion::from_str("+3.+4"), VkVersion(3, 4));
    assert_eq!(VkVersion::parse(b"65535.65535"), Some(VkVersion(65535, 65535)));
    assert_eq!(VkVersion::parse(b"65536.0"), None);
    assert_eq!(VkVersion::parse(b"1.0.3"), None);
    assert_eq!(VkVersion::parse(b""), None);
    assert_eq!(VkVersion::parse(b"1."), None);
    assert_eq!(VkVersion::parse(b".1"), None);
    assert_eq!(VkVersion::parse(b"one"), None);
    assert!(VkVersion(1, 0).le(&VkVersion(1, 0)));
    assert!(VkVersion(1, 9).le(&VkVersion(2, 0)));
    assert!(!VkVersion(2, 0).le(&VkVersion(1, 9)));
}
