use vk_generator::final_variants_of;
use vk_generator::select;
use vk_generator::InternedRef;
use vk_generator::Missing;
use vk_generator::Referrer;
use vk_generator::SelectError;
use vk_generator::Selection;
use vk_generator::VkInterface;
use vk_generator::VkRegistry;
use vk_generator::VkVariant;
use vk_generator::VkVersion;

const SMALL: &str = r#"<registry>
  <types>
    <type name="vk_platform" category="include"/>
    <type requires="vk_platform" name="uint32_t"/>
    <type requires="vk_platform" name="void"/>
    <type name="VkResult" category="enum"/>
    <type name="VkColorSpaceKHR" category="enum"/>
    <type category="basetype">typedef <type>uint32_t</type> <name>VkFlags</name>;</type>
    <type category="handle"><type>VK_DEFINE_HANDLE</type>(<name>VkInstance</name>)</type>
    <type category="handle"><type>VK_DEFINE_NON_DISPATCHABLE_HANDLE</type>(<name>VkSurfaceKHR</name>)</type>
    <type category="struct" name="VkInner"><member><type>VkFlags</type> <name>flags</name></member></type>
    <type category="struct" name="VkOuter">
      <member>const <type>void</type>* <name>pNext</name></member>
      <member><type>VkInner</type> <name>inner</name></member>
      <member><type>VkOuter</type>* <name>pSelf</name></member>
    </type>
    <type category="struct" name="VkUnused"><member><type>uint32_t</type> <name>x</name></member></type>
    <type category="struct" name="VkBroken"><member><type>VkNowhere</type> <name>x</name></member></type>
    <type category="struct" name="VkLater"><member><type>VkInner</type> <name>x</name></member></type>
  </types>
  <enums name="API Constants"><enum value="256" name="VK_MAX_NAME"/></enums>
  <enums name="VkResult" type="enum">
    <enum value="0" name="VK_SUCCESS"/>
    <enum value="1" name="VK_NOT_READY"/>
    <enum value="-1" name="VK_ERROR_OUT_OF_HOST_MEMORY"/>
  </enums>
  <enums name="VkColorSpaceKHR" type="enum"/>
  <commands>
    <command><proto><type>VkResult</type> <name>vkCreateInstance</name></proto>
      <param>const <type>VkOuter</type>* <name>pCreateInfo</name></param>
      <param><type>VkInstance</type>* <name>pInstance</name></param></command>
    <command><proto><type>void</type> <name>vkDestroySurfaceKHR</name></proto>
      <param><type>VkInstance</type> <name>instance</name></param>
      <param><type>VkSurfaceKHR</type> <name>surface</name></param></command>
    <command><proto><type>void</type> <name>vkLater</name></proto>
      <param><type>VkLater</type> <name>x</name></param></command>
  </commands>
  <feature api="vulkan" name="VK_VERSION_1_1" number="1.1">
    <require><command name="vkLater"/></require>
  </feature>
  <feature api="vulkan" name="VK_VERSION_1_0" number="1.0">
    <require><type name="vk_platform"/><enum name="VK_MAX_NAME"/><command name="vkCreateInstance"/></require>
  </feature>
  <extensions>
    <extension name="VK_KHR_surface" number="1">
      <require>
        <enum value="25" name="VK_KHR_SURFACE_SPEC_VERSION"/>
        <enum value="26" name="VK_KHR_SURFACE_SPEC_VERSION"/>
        <enum offset="0" extends="VkResult" dir="-" name="VK_ERROR_SURFACE_LOST_KHR"/>
        <enum offset="0" extends="VkColorSpaceKHR" name="VK_COLOR_SPACE_SRGB_NONLINEAR_KHR"/>
        <enum value="7" extends="VkResult" name="VK_NOT_READY"/>
        <type name="VkSurfaceKHR"/>
        <command name="vkDestroySurfaceKHR"/>
      </require>
    </extension>
    <extension name="VK_EXT_again" number="2">
      <require><enum offset="0" extends="VkResult" dir="-" name="VK_ERROR_SURFACE_LOST_KHR"/>
               <type name="VkUnused"/></require>
      <remove><type name="VkInner"/><command name="vkCreateInstance"/>
              <enum name="VK_KHR_SURFACE_SPEC_VERSION" value="25"/></remove>
    </extension>
    <extension name="VK_EXT_broken" number="3"><require><type name="VkBroken"/></require></extension>
    <extension name="VK_EXT_nocommand" number="4"><require><command name="vkNowhere"/></require></extension>
    <extension name="VK_EXT_noenum" number="5">
      <require><enum offset="0" extends="VkNowhere" name="VK_X"/></require></extension>
  </extensions>
</registry>"#;

fn small() -> VkRegistry {
    VkRegistry::new(SMALL.as_bytes()).unwrap()
}

fn text_of(registry: &VkRegistry, r: InternedRef) -> String {
    String::from_utf8(registry.text(r).to_vec()).unwrap()
}

fn type_names(registry: &VkRegistry, selection: &Selection) -> Vec<String> {
    selection.types().iter().map(|t| text_of(registry, registry.types()[*t].name().unwrap())).collect()
}

fn command_names(registry: &VkRegistry, selection: &Selection) -> Vec<String> {
    selection.commands().iter().map(|c| text_of(registry, registry.commands()[*c].name)).collect()
}

fn mentioned(registry: &VkRegistry, selection: &Selection) -> Vec<InternedRef> {
    let mut names = Vec::new();
    for t in selection.types().iter() {
        names.extend(vk_generator::selection::type_deps_of(&registry.types()[*t]));
    }
    for c in selection.commands().iter() {
        names.extend(vk_generator::selection::command_deps_of(&registry.commands()[*c]));
    }
    names
}

fn assert_closed(registry: &VkRegistry, selection: &Selection) {
    for name in mentioned(registry, selection) {
        if name.is_null() {
            continue;
        }
        let at = registry.find_type(registry.text(name)).unwrap();
        assert!(selection.has_type(at) || selection.removed().contains(&at), "{}", text_of(registry, name));
    }
}

#[test]
fn a_command_brings_the_types_that_it_mentions() {
    let registry = small();
    let selection = select(&registry, VkVersion(1, 0), &[]).unwrap();
    assert_eq!(
        type_names(&registry, &selection),
        ["vk_platform", "VK_MAX_NAME", "VkResult", "void", "uint32_t", "VkFlags", "VkInner", "VkOuter", "VkInstance"]
    );
    assert_eq!(command_names(&registry, &selection), ["vkCreateInstance"]);
    assert!(selection.removed().is_empty());
    assert_closed(&registry, &selection);
    assert!(!selection.has_type(registry.find_type(b"VkUnused").unwrap()));
}

#[test]
fn features_are_applied_in_the_order_of_their_versions() {
    let registry = small();
    let selection = select(&registry, VkVersion(1, 1), &[]).unwrap();
    assert_eq!(command_names(&registry, &selection), ["vkCreateInstance", "vkLater"]);
    assert_eq!(type_names(&registry, &selection).last().unwrap(), "VkLater");
    assert_closed(&registry, &selection);
}

#[test]
fn a_version_later_than_every_feature_selects_the_declared_features() {
    let registry = small();
    let latest = select(&registry, VkVersion(1, 1), &[]).unwrap();
    let beyond = select(&registry, VkVersion(9, 7), &[]).unwrap();
    assert_eq!(latest.types(), beyond.types());
    assert_eq!(latest.commands(), beyond.commands());
    let before = select(&registry, VkVersion(0, 9), &[]).unwrap();
    assert!(before.types().is_empty());
    assert!(before.commands().is_empty());
}

#[test]
fn an_extension_adds_types_commands_constants_and_variants() {
    let registry = small();
    let selection = select(&registry, VkVersion(1, 0), &["VK_KHR_surface"]).unwrap();
    assert_eq!(command_names(&registry, &selection), ["vkCreateInstance", "vkDestroySurfaceKHR"]);
    assert!(type_names(&registry, &selection).contains(&"VkSurfaceKHR".to_string()));
    assert_eq!(selection.const_defs().len(), 1);
    assert_eq!(text_of(&registry, selection.const_defs()[0].name), "VK_KHR_SURFACE_SPEC_VERSION");
    assert_eq!(text_of(&registry, selection.const_defs()[0].value), "25");
    assert_eq!(selection.extras().len(), 3);
    let result = registry.find_type(b"VkResult").unwrap();
    let variants = final_variants_of(&registry, &selection, result);
    let got: Vec<(String, isize)> = variants
        .iter()
        .map(|v| match v {
            VkVariant::Value { name, value } => (text_of(&registry, *name), *value),
            other => panic!("{:?}", other),
        })
        .collect();
    assert_eq!(
        got,
        [
            ("VK_SUCCESS".to_string(), 0),
            ("VK_NOT_READY".to_string(), 1),
            ("VK_ERROR_OUT_OF_HOST_MEMORY".to_string(), -1),
            ("VK_ERROR_SURFACE_LOST_KHR".to_string(), -1000000000),
        ]
    );
    let space = registry.find_type(b"VkColorSpaceKHR").unwrap();
    let variants = final_variants_of(&registry, &selection, space);
    assert_eq!(variants.len(), 1);
    match variants[0] {
        VkVariant::Value { name, value } => {
            assert_eq!(text_of(&registry, name), "VK_COLOR_SPACE_SRGB_NONLINEAR_KHR");
            assert_eq!(value, 1000000000);
        }
        other => panic!("{:?}", other),
    }
    assert_closed(&registry, &selection);
}

#[test]
fn the_first_variant_of_a_name_wins_across_extensions() {
    let registry = small();
    let selection = select(&registry, VkVersion(1, 0), &["VK_KHR_surface", "VK_EXT_again"]).unwrap();
    let result = registry.find_type(b"VkResult").unwrap();
    let variants = final_variants_of(&registry, &selection, result);
    let mut names: Vec<String> = variants.iter().map(|v| text_of(&registry, v.name())).collect();
    assert_eq!(names.len(), 4);
    names.sort();
    names.dedup();
    assert_eq!(names.len(), 4);
}

#[test]
fn what_is_removed_after_it_was_required_is_absent() {
    let registry = small();
    let selection = select(&registry, VkVersion(1, 0), &["VK_KHR_surface", "VK_EXT_again"]).unwrap();
    let inner = registry.find_type(b"VkInner").unwrap();
    assert!(!selection.has_type(inner));
    assert!(!selection.types().contains(&inner));
    assert_eq!(selection.removed(), &vec![inner]);
    assert_eq!(command_names(&registry, &selection), ["vkDestroySurfaceKHR"]);
    assert!(selection.const_defs().is_empty());
    assert!(type_names(&registry, &selection).contains(&"VkOuter".to_string()));
    assert!(type_names(&registry, &selection).contains(&"VkUnused".to_string()));
    assert_closed(&registry, &selection);
}

#[test]
fn an_unknown_extension_is_named() {
    let registry = small();
    match select(&registry, VkVersion(1, 0), &["VK_KHR_surface", "VK_KHR_nowhere"]) {
        Err(SelectError::UnknownExtension { index }) => assert_eq!(index, 1),
        other => panic!("{:?}", other.err()),
    }
    match select(&registry, VkVersion(1, 0), &["VK_khr_surface"]) {
        Err(SelectError::UnknownExtension { index }) => assert_eq!(index, 0),
        other => panic!("{:?}", other.err()),
    }
}

#[test]
fn an_undefined_reference_names_the_symbol_and_the_referrer() {
    let registry = small();
    match select(&registry, VkVersion(1, 0), &["VK_KHR_surface", "VK_EXT_broken"]) {
        Err(SelectError::Undefined { missing: Missing::Type(name), referrer }) => {
            assert_eq!(text_of(&registry, name), "VkNowhere");
            assert_eq!(referrer, Referrer::Extension(1));
        }
        other => panic!("{:?}", other.err()),
    }
    match select(&registry, VkVersion(1, 0), &["VK_EXT_nocommand"]) {
        Err(SelectError::Undefined { missing: Missing::Command(name), referrer }) => {
            assert_eq!(text_of(&registry, name), "vkNowhere");
            assert_eq!(referrer, Referrer::Extension(0));
        }
        other => panic!("{:?}", other.err()),
    }
    match select(&registry, VkVersion(1, 0), &["VK_EXT_noenum"]) {
        Err(SelectError::Undefined { missing: Missing::Type(name), .. }) => {
            assert_eq!(text_of(&registry, name), "VkNowhere")
        }
        other => panic!("{:?}", other.err()),
    }
    let xml = r#"<registry><feature api="vulkan" name="F" number="1.0">
        <require><type name="VkGone"/></require></feature></registry>"#;
    let registry = VkRegistry::new(xml.as_bytes()).unwrap();
    match select(&registry, VkVersion(1, 0), &[]) {
        Err(SelectError::Undefined { missing: Missing::Type(name), referrer }) => {
            assert_eq!(text_of(&registry, name), "VkGone");
            assert_eq!(referrer, Referrer::Feature(VkVersion(1, 0)));
        }
        other => panic!("{:?}", other.err()),
    }
}

#[test]
fn single_interfaces_can_be_required_and_removed() {
    let registry = small();
    let mut selection = Selection::new(&registry);
    let outer = registry.find_type(b"VkOuter").unwrap();
    selection.pick_type(&registry, outer).unwrap();
    assert_eq!(
        type_names(&registry, &selection),
        ["vk_platform", "void", "uint32_t", "VkFlags", "VkInner", "VkOuter"]
    );
    selection.pick_type(&registry, outer).unwrap();
    assert_eq!(selection.types().len(), 6);
    let surface = &registry.extns()[registry.find_extn(b"VK_KHR_surface").unwrap()];
    for op in surface.require.iter() {
        selection.require(&registry, op).unwrap();
    }
    assert!(selection.has_command(registry.find_command(b"vkDestroySurfaceKHR").unwrap()));
    for op in surface.require.iter() {
        selection.remove(&registry, op);
    }
    assert!(selection.commands().is_empty());
    assert!(selection.extras().is_empty());
    assert!(selection.const_defs().is_empty());
    assert!(!selection.has_type(registry.find_type(b"VkSurfaceKHR").unwrap()));
    let nowhere = VkInterface::Type { name: InternedRef::Null, profile: InternedRef::Null };
    assert_eq!(selection.require(&registry, &nowhere), Err(Missing::Type(InternedRef::Null)));
    selection.remove(&registry, &nowhere);
}

#[test]
fn two_runs_select_the_same() {
    let registry = small();
    let a = select(&registry, VkVersion(1, 1), &["VK_KHR_surface", "VK_EXT_again"]).unwrap();
    let b = select(&registry, VkVersion(1, 1), &["VK_KHR_surface", "VK_EXT_again"]).unwrap();
    assert_eq!(a.types(), b.types());
    assert_eq!(a.commands(), b.commands());
    assert_eq!(a.const_defs(), b.const_defs());
    assert_eq!(a.extras(), b.extras());
    assert_eq!(a.removed(), b.removed());
}

#[test]
fn the_vulkan_registry_is_selected() {
    let registry = VkRegistry::new(vk_api::VK_XML).unwrap();
    let selection = select(&registry, VkVersion(1, 0), &["VK_KHR_surface", "VK_EXT_debug_report"]).unwrap();
    assert_closed(&registry, &selection);
    let names = command_names(&registry, &selection);
    assert!(names.contains(&"vkCreateInstance".to_string()));
    assert!(names.contains(&"vkDestroySurfaceKHR".to_string()));
    assert!(names.contains(&"vkCreateDebugReportCallbackEXT".to_string()));
    assert!(!names.contains(&"vkCreateSwapchainKHR".to_string()));
    let types = type_names(&registry, &selection);
    assert!(types.contains(&"VkInstance".to_string()));
    assert!(types.contains(&"VkResult".to_string()));
    assert!(types.contains(&"VkSurfaceKHR".to_string()));
    let mut sorted = selection.types().clone();
    sorted.sort();
    sorted.dedup();
    assert_eq!(sorted.len(), selection.types().len());
    let result = registry.find_type(b"VkResult").unwrap();
    let variants = final_variants_of(&registry, &selection, result);
    assert!(variants.iter().any(|v| match v {
        VkVariant::Value { name, value } =>
            text_of(&registry, *name) == "VK_ERROR_SURFACE_LOST_KHR" && *value == -1000000000,
        _ => false,
    }));
}
