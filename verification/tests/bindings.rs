use render_pipeline_shaders::bindings::{
    check_backend_selection, has_prefix, has_suffix, item_name, neutralize_opaque_handles,
    replace_all, strip_leading, strip_trailing, GraphicsBackend, LINE_COMMENT,
    OPAQUE_HANDLE_MACRO,
};

fn expected_name(declared: &str) -> Option<String> {
    if declared.starts_with("Vk") {
        Some(declared.trim_start_matches("Vk").to_string())
    } else if declared.starts_with("PFN_vk") && declared.ends_with("KHR") {
        Some(declared.trim_end_matches("KHR").to_string())
    } else {
        None
    }
}

#[test]
fn vendor_prefix_is_stripped() {
    assert_eq!(item_name("VkInstance"), Some("Instance".to_string()));
    assert_eq!(item_name("VkImageCreateInfo"), Some("ImageCreateInfo".to_string()));
    assert_eq!(item_name("Vk"), Some(String::new()));
}

#[test]
fn repeated_vendor_prefix_is_stripped_whole() {
    assert_eq!(item_name("VkVkFormat"), Some("Format".to_string()));
    assert_eq!(item_name("VkVkV"), Some("V".to_string()));
    assert_eq!(item_name("VkVk"), Some(String::new()));
}

#[test]
fn prefixed_name_keeps_its_suffix() {
    assert_eq!(item_name("VkSwapchainKHR"), Some("SwapchainKHR".to_string()));
}

#[test]
fn extension_suffix_is_stripped_from_function_pointers() {
    assert_eq!(
        item_name("PFN_vkCreateSwapchainKHR"),
        Some("PFN_vkCreateSwapchain".to_string())
    );
    assert_eq!(item_name("PFN_vkFooKHRKHR"), Some("PFN_vkFoo".to_string()));
    assert_eq!(item_name("PFN_vkKHR"), Some("PFN_vk".to_string()));
}

#[test]
fn other_names_are_kept() {
    assert_eq!(item_name("PFN_vkCreateInstance"), None);
    assert_eq!(item_name("RpsDeviceCreateInfo"), None);
    assert_eq!(item_name("rpsDeviceCreate"), None);
    assert_eq!(item_name("PFN_rpsFooKHR"), None);
    assert_eq!(item_name("vkFoo"), None);
    assert_eq!(item_name("V"), None);
    assert_eq!(item_name(""), None);
    assert_eq!(item_name("KHR"), None);
}

#[test]
fn names_outside_ascii_are_handled_by_character() {
    assert_eq!(item_name("Vk\u{e9}t\u{e9}"), Some("\u{e9}t\u{e9}".to_string()));
    assert_eq!(item_name("PFN_vk\u{e9}KHR"), Some("PFN_vk\u{e9}".to_string()));
    assert_eq!(item_name("\u{e9}Vk"), None);
}

#[test]
fn item_name_agrees_with_the_standard_library() {
    let names = [
        "", "V", "Vk", "VkV", "VkVk", "VkVkVkImage", "VkKHR", "PFN_vk", "PFN_vkKHR",
        "PFN_vkKHRKHR", "PFN_vkAcquireNextImageKHR", "PFN_vkKH", "PFN_vKHR", "KHRKHR",
        "RpsResult", "va_list", "VKInstance", "kVk",
    ];
    for name in names {
        assert_eq!(item_name(name), expected_name(name), "for {name:?}");
    }
}

#[test]
fn prefix_and_suffix_tests() {
    assert!(has_prefix("VkImage", "Vk"));
    assert!(has_prefix("Vk", "Vk"));
    assert!(has_prefix("anything", ""));
    assert!(!has_prefix("V", "Vk"));
    assert!(!has_prefix("vkImage", "Vk"));
    assert!(has_suffix("SwapchainKHR", "KHR"));
    assert!(has_suffix("KHR", "KHR"));
    assert!(has_suffix("anything", ""));
    assert!(!has_suffix("HR", "KHR"));
    assert!(!has_suffix("SwapchainKHX", "KHR"));
}

#[test]
fn stripping_removes_every_repetition() {
    assert_eq!(strip_leading("ababc", "ab"), "c");
    assert_eq!(strip_leading("abab", "ab"), "");
    assert_eq!(strip_leading("aab", "ab"), "aab");
    assert_eq!(strip_leading("abc", ""), "abc");
    assert_eq!(strip_leading("", "ab"), "");
    assert_eq!(strip_trailing("cabab", "ab"), "c");
    assert_eq!(strip_trailing("abab", "ab"), "");
    assert_eq!(strip_trailing("abb", "ab"), "abb");
    assert_eq!(strip_trailing("abc", ""), "abc");
    assert_eq!(strip_trailing("", "ab"), "");
}

#[test]
fn stripping_twice_changes_nothing() {
    for name in ["VkVkImage", "Image", "VkV", ""] {
        let once = strip_leading(name, "Vk");
        assert_eq!(strip_leading(once, "Vk"), once);
        assert!(name.ends_with(once));
    }
    for name in ["FooKHRKHR", "Foo", "KHRK", ""] {
        let once = strip_trailing(name, "KHR");
        assert_eq!(strip_trailing(once, "KHR"), once);
        assert!(name.starts_with(once));
    }
}

#[test]
fn supported_selection_is_accepted() {
    assert_eq!(check_backend_selection(false, false), Ok(()));
}

#[test]
fn unsupported_backends_are_refused() {
    assert_eq!(check_backend_selection(true, false), Err(GraphicsBackend::D3D11));
    assert_eq!(check_backend_selection(false, true), Err(GraphicsBackend::D3D12));
}

#[test]
fn both_unsupported_backends_are_refused_at_once() {
    assert_eq!(check_backend_selection(true, true), Err(GraphicsBackend::D3D11));
}

#[test]
fn every_occurrence_is_replaced() {
    assert_eq!(replace_all(b"a-b-c", b"-", b"+"), b"a+b+c");
    assert_eq!(replace_all(b"abab", b"ab", b"x"), b"xx");
    assert_eq!(replace_all(b"abab", b"ab", b""), b"");
    assert_eq!(replace_all(b"xabx", b"ab", b"12345"), b"x12345x");
    assert_eq!(replace_all(b"ab", b"ab", b"ab"), b"ab");
}

#[test]
fn occurrences_are_taken_from_the_left_without_overlap() {
    assert_eq!(replace_all(b"aaa", b"aa", b"b"), b"ba");
    assert_eq!(replace_all(b"aaaa", b"aa", b"b"), b"bb");
    assert_eq!(replace_all(b"ababa", b"aba", b"x"), b"xba");
}

#[test]
fn text_without_the_pattern_is_unchanged() {
    assert_eq!(replace_all(b"hello", b"xyz", b"!"), b"hello");
    assert_eq!(replace_all(b"ab", b"abc", b"!"), b"ab");
    assert_eq!(replace_all(b"", b"a", b"!"), b"");
    assert_eq!(replace_all(b"hello", b"", b"!"), b"hello");
    assert_eq!(replace_all(b"", b"", b"!"), b"");
}

#[test]
fn opaque_handle_macro_becomes_a_comment() {
    assert_eq!(OPAQUE_HANDLE_MACRO, "RPS_IMPL_OPAQUE_HANDLE");
    assert_eq!(LINE_COMMENT, "//");
    let header = b"#include <x.h>\nRPS_IMPL_OPAQUE_HANDLE(VKRuntimeDevice, RpsDevice, rps::RuntimeDevice);\nint f();\n";
    let readable = b"#include <x.h>\n//(VKRuntimeDevice, RpsDevice, rps::RuntimeDevice);\nint f();\n";
    assert_eq!(neutralize_opaque_handles(header), readable);
    assert_eq!(neutralize_opaque_handles(b"int f();\n"), b"int f();\n");
    assert_eq!(neutralize_opaque_handles(b""), b"");
}

#[test]
fn neutralizing_agrees_with_the_standard_library() {
    let headers = [
        "",
        "RPS_IMPL_OPAQUE_HANDLE",
        "RPS_IMPL_OPAQUE_HANDLERPS_IMPL_OPAQUE_HANDLE",
        "RPS_IMPL_OPAQUE_HANDL",
        "xRPS_IMPL_OPAQUE_HANDLEy RPS_IMPL_OPAQUE_HANDLE(a, b);",
        "RPS_IMPL_RPS_IMPL_OPAQUE_HANDLE",
        "// caf\u{e9} RPS_IMPL_OPAQUE_HANDLE(\u{e9});",
    ];
    for header in headers {
        let expected = header.replace("RPS_IMPL_OPAQUE_HANDLE", "//");
        assert_eq!(neutralize_opaque_handles(header.as_bytes()), expected.as_bytes(), "for {header:?}");
    }
}
