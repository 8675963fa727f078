use vk_generator::crawl;
use vk_generator::crawl_model::ElToken;
use vk_generator::crawl_model::Tag;
use vk_generator::crawler::compose_el;
use vk_generator::crawler::extension_enum_value;
use vk_generator::crawler::tag_of_name;
use vk_generator::crawler::token_of;
use vk_generator::xml_events::find_attribute;
use vk_generator::xml_events::read_events;
use vk_generator::Crawler;
use vk_generator::CrawlErrorKind;
use vk_generator::Frame;
use vk_generator::InternedRef;
use vk_generator::VkElType;
use vk_generator::VkInterface;
use vk_generator::VkRegistry;
use vk_generator::VkType;
use vk_generator::VkVariant;
use vk_generator::VkVersion;
use vk_generator::XmlAttribute;
use vk_generator::XmlEvent;

fn start(name: &str, attrs: &[(&str, &str)]) -> XmlEvent {
    XmlEvent::StartElement {
        name: name.as_bytes().to_vec(),
        attributes: attrs
            .iter()
            .map(|(k, v)| XmlAttribute { name: k.as_bytes().to_vec(), value: v.as_bytes().to_vec() })
            .collect(),
    }
}

fn end(name: &str) -> XmlEvent {
    XmlEvent::EndElement { name: name.as_bytes().to_vec() }
}

fn chars(text: &str) -> XmlEvent {
    XmlEvent::Characters { text: text.as_bytes().to_vec() }
}

fn text_of(registry: &VkRegistry, r: InternedRef) -> String {
    String::from_utf8(registry.text(r).to_vec()).unwrap()
}

fn type_named<'a>(registry: &'a VkRegistry, name: &str) -> &'a VkType {
    let at = registry.find_type(name.as_bytes()).unwrap();
    &registry.types()[at]
}

fn crawl_text(xml: &str) -> Result<VkRegistry, vk_generator::CrawlError> {
    VkRegistry::new(xml.as_bytes())
}

fn kind_of(xml: &str) -> CrawlErrorKind {
    match crawl_text(xml) {
        Ok(_) => panic!("the document was accepted"),
        Err(e) => e.kind,
    }
}

#[test]
fn struct_members_are_composed_from_text_and_tags() {
    let xml = r#"<registry><types>
        <type category="struct" name="VkThing">
            <member><type>uint32_t</type> <name>count</name></member>
            <member optional="true">const <type>void</type>* <name>pNext</name></member>
            <member>const <type>char</type>* const* <name>ppNames</name></member>
            <member><type>float</type> <name>blend</name>[4]</member>
            <member><type>uint8_t</type> <name>uuid</name>[<enum>VK_UUID_SIZE</enum>]</member>
            <member>struct <type>wl_display</type>* <name>display</name></member>
        </type>
    </types></registry>"#;
    let registry = crawl_text(xml).unwrap();
    let fields = match type_named(&registry, "VkThing") {
        VkType::Struct { fields, .. } => fields,
        other => panic!("{:?}", other),
    };
    assert_eq!(fields.len(), 6);
    let names: Vec<String> = fields.iter().map(|f| text_of(&registry, f.field_name)).collect();
    assert_eq!(names, ["count", "pNext", "ppNames", "blend", "uuid", "display"]);
    assert_eq!(fields.iter().map(|f| f.optional).collect::<Vec<_>>(), [false, true, false, false, false, false]);
    match fields[0].field_type {
        VkElType::Var(t) => assert_eq!(text_of(&registry, t), "uint32_t"),
        other => panic!("{:?}", other),
    }
    match fields[1].field_type {
        VkElType::ConstPtr(t, 1) => assert_eq!(text_of(&registry, t), "void"),
        other => panic!("{:?}", other),
    }
    match fields[2].field_type {
        VkElType::ConstPtr(t, 2) => assert_eq!(text_of(&registry, t), "char"),
        other => panic!("{:?}", other),
    }
    match fields[3].field_type {
        VkElType::MutArray(t, 4) => assert_eq!(text_of(&registry, t), "float"),
        other => panic!("{:?}", other),
    }
    match fields[4].field_type {
        VkElType::MutArrayEnum(t, e) => {
            assert_eq!(text_of(&registry, t), "uint8_t");
            assert_eq!(text_of(&registry, e), "VK_UUID_SIZE");
        }
        other => panic!("{:?}", other),
    }
    match fields[5].field_type {
        VkElType::MutPtr(t, 1) => assert_eq!(text_of(&registry, t), "wl_display"),
        other => panic!("{:?}", other),
    }
}

#[test]
fn each_category_gives_its_kind_of_type() {
    let xml = r#"<registry><types>
        <type name="vk_platform" category="include">#include "vk_platform.h"</type>
        <type requires="vk_platform" name="uint32_t"/>
        <type category="define">#define <name>VK_MAKE_VERSION</name>(major, minor, patch)</type>
        <type category="basetype">typedef <type>uint32_t</type> <name>VkFlags</name>;</type>
        <type requires="VkQueueFlagBits" category="bitmask">typedef <type>VkFlags</type> <name>VkQueueFlags</name>;</type>
        <type category="handle"><type>VK_DEFINE_HANDLE</type>(<name>VkInstance</name>)</type>
        <type category="handle"><type>VK_DEFINE_NON_DISPATCHABLE_HANDLE</type>(<name>VkFence</name>)</type>
        <type name="VkQueueFlagBits" category="enum"/>
        <type category="funcpointer">typedef void (VKAPI_PTR *<name>PFN_vkNotify</name>)(
            <type>VkInstance</type> instance);</type>
        <type category="union" name="VkClearValue"><member><type>uint32_t</type> <name>x</name></member></type>
        <type category="mystery" name="Dropped"/>
    </types></registry>"#;
    let registry = crawl_text(xml).unwrap();
    assert_eq!(registry.types().len(), 10);
    assert!(registry.find_type(b"Dropped").is_none());
    match type_named(&registry, "vk_platform") {
        VkType::ExternType { requires, .. } => assert!(requires.is_null()),
        other => panic!("{:?}", other),
    }
    match type_named(&registry, "uint32_t") {
        VkType::ExternType { requires, .. } => assert_eq!(text_of(&registry, *requires), "vk_platform"),
        other => panic!("{:?}", other),
    }
    assert!(matches!(type_named(&registry, "VK_MAKE_VERSION"), VkType::Define { .. }));
    match type_named(&registry, "VkFlags") {
        VkType::TypeDef { typ, requires, .. } => {
            assert_eq!(text_of(&registry, *typ), "uint32_t");
            assert!(requires.is_null());
        }
        other => panic!("{:?}", other),
    }
    match type_named(&registry, "VkQueueFlags") {
        VkType::Bitmask { variants, .. } => assert!(variants.is_empty()),
        other => panic!("{:?}", other),
    }
    assert!(matches!(type_named(&registry, "VkInstance"), VkType::Handle { dispatchable: true, .. }));
    assert!(matches!(type_named(&registry, "VkFence"), VkType::Handle { dispatchable: false, .. }));
    assert!(matches!(type_named(&registry, "VkQueueFlagBits"), VkType::Enum { .. }));
    match type_named(&registry, "PFN_vkNotify") {
        VkType::FuncPointer { params, .. } => {
            assert_eq!(params.len(), 1);
            match params[0] {
                VkElType::Var(t) => assert_eq!(text_of(&registry, t), "VkInstance"),
                other => panic!("{:?}", other),
            }
        }
        other => panic!("{:?}", other),
    }
    assert!(matches!(type_named(&registry, "VkClearValue"), VkType::Union { .. }));
}

#[test]
fn enums_blocks_fill_variants_and_constants() {
    let xml = r#"<registry>
      <types><type name="VkResult" category="enum"/><type name="VkQueueFlagBits" category="enum"/></types>
      <enums name="API Constants">
        <enum value="256" name="VK_MAX_PHYSICAL_DEVICE_NAME_SIZE"/>
        <enum value="1000.0f" name="VK_LOD_CLAMP_NONE"/>
        <enum name="VK_NO_VALUE"/>
      </enums>
      <enums name="VkResult" type="enum">
        <enum value="0" name="VK_SUCCESS"/>
        <enum value="1" name="VK_NOT_READY"/>
        <enum value="-1" name="VK_ERROR_OUT_OF_HOST_MEMORY"/>
        <enum value="0x7FFFFFFF" name="VK_RESULT_MAX_ENUM"/>
        <enum value="zero" name="VK_UNREADABLE"/>
        <unused start="2"/>
      </enums>
      <enums name="VkQueueFlagBits" type="bitmask">
        <enum bitpos="0" name="VK_QUEUE_GRAPHICS_BIT"/>
        <enum bitpos="3" name="VK_QUEUE_SPARSE_BINDING_BIT"/>
        <enum value="0x3" name="VK_QUEUE_BOTH"/>
      </enums>
    </registry>"#;
    let registry = crawl_text(xml).unwrap();
    let consts: Vec<String> = registry.core_consts().iter().map(|c| text_of(&registry, *c)).collect();
    assert_eq!(consts, ["VK_MAX_PHYSICAL_DEVICE_NAME_SIZE", "VK_LOD_CLAMP_NONE"]);
    match type_named(&registry, "VK_LOD_CLAMP_NONE") {
        VkType::ApiConst { value, .. } => assert_eq!(text_of(&registry, *value), "1000.0f"),
        other => panic!("{:?}", other),
    }
    assert!(registry.find_type(b"API Constants").is_none());
    let variants = match type_named(&registry, "VkResult") {
        VkType::Enum { variants, .. } => variants,
        other => panic!("{:?}", other),
    };
    let got: Vec<(String, isize)> = variants
        .iter()
        .map(|v| match v {
            VkVariant::Value { name, value } => (text_of(&registry, *name), *value),
            other => panic!("{:?}", other),
        })
        .collect();
    assert_eq!(
        got,
        [
            ("VK_SUCCESS".to_string(), 0),
            ("VK_NOT_READY".to_string(), 1),
            ("VK_ERROR_OUT_OF_HOST_MEMORY".to_string(), -1),
            ("VK_RESULT_MAX_ENUM".to_string(), 0x7FFFFFFF),
        ]
    );
    let bits = match type_named(&registry, "VkQueueFlagBits") {
        VkType::Bitmask { variants, .. } => variants,
        other => panic!("{:?}", other),
    };
    assert_eq!(bits.len(), 3);
    assert!(matches!(bits[0], VkVariant::Bitpos { bitpos: 0, .. }));
    assert!(matches!(bits[1], VkVariant::Bitpos { bitpos: 3, .. }));
    assert!(matches!(bits[2], VkVariant::Value { value: 3, .. }));
    assert_eq!(registry.types().len(), 4);
}

#[test]
fn commands_take_proto_and_params() {
    let xml = r#"<registry><commands>
        <command successcodes="VK_SUCCESS">
            <proto><type>VkResult</type> <name>vkCreateInstance</name></proto>
            <param>const <type>VkInstanceCreateInfo</type>* <name>pCreateInfo</name></param>
            <param optional="true">const <type>VkAllocationCallbacks</type>* <name>pAllocator</name></param>
            <param><type>VkInstance</type>* <name>pInstance</name></param>
            <implicitexternsyncparams><param>all sname:VkQueue objects</param></implicitexternsyncparams>
        </command>
        <command>
            <proto><type>void</type> <name>vkCmdSetBlendConstants</name></proto>
            <param><type>VkCommandBuffer</type> <name>commandBuffer</name></param>
            <param>const <type>float</type> <name>blendConstants</name>[4]</param>
        </command>
        <command>
            <proto><type>void</type>* <name>vkMapSomething</name></proto>
        </command>
        <command/>
    </commands></registry>"#;
    let registry = crawl_text(xml).unwrap();
    assert_eq!(registry.commands().len(), 3);
    let create = &registry.commands()[registry.find_command(b"vkCreateInstance").unwrap()];
    match create.ret {
        VkElType::Var(t) => assert_eq!(text_of(&registry, t), "VkResult"),
        other => panic!("{:?}", other),
    }
    assert_eq!(create.params.len(), 3);
    assert!(matches!(create.params[0].typ, VkElType::ConstPtr(_, 1)));
    assert!(matches!(create.params[2].typ, VkElType::MutPtr(_, 1)));
    assert_eq!(text_of(&registry, create.params[2].name), "pInstance");
    let blend = &registry.commands()[registry.find_command(b"vkCmdSetBlendConstants").unwrap()];
    assert_eq!(blend.ret, VkElType::Void);
    assert!(matches!(blend.params[1].typ, VkElType::ConstArray(_, 4)));
    let map = &registry.commands()[registry.find_command(b"vkMapSomething").unwrap()];
    assert_eq!(map.ret, VkElType::MutPtr(InternedRef::Null, 1));
    assert!(map.params.is_empty());
}

#[test]
fn features_and_extensions_list_their_interfaces() {
    let xml = r#"<registry>
      <feature api="vulkan" name="VK_VERSION_1_0" number="1.0">
        <require comment="Header boilerplate"><type name="vk_platform"/></require>
        <require><enum name="VK_LOD_CLAMP_NONE"/><command name="vkCreateInstance"/></require>
        <remove profile="core"><type name="VkOld"/></remove>
      </feature>
      <feature api="gles" name="GL_ES" number="2.0"><require><type name="GLint"/></require></feature>
      <extensions>
        <extension name="VK_KHR_surface" number="1" supported="vulkan">
          <require>
            <enum value="25" name="VK_KHR_SURFACE_SPEC_VERSION"/>
            <enum offset="0" extends="VkResult" dir="-" name="VK_ERROR_SURFACE_LOST_KHR"/>
            <enum offset="0" extends="VkColorSpaceKHR" name="VK_COLOR_SPACE_SRGB_NONLINEAR_KHR"/>
            <enum bitpos="10" extends="VkFlagsX" name="VK_X_BIT"/>
            <enum offset="bad" extends="VkResult" name="VK_DROPPED"/>
            <enum name="VK_LOD_CLAMP_NONE"/>
            <type name="VkSurfaceKHR"/>
            <command name="vkDestroySurfaceKHR"/>
          </require>
        </extension>
        <extension name="VK_KHR_swapchain" number="2">
          <require><enum offset="3" extends="VkStructureType" name="VK_S"/>
                   <enum offset="1" extnumber="61" extends="VkStructureType" name="VK_T"/></require>
        </extension>
        <extension name="VK_nameless"/>
      </extensions>
    </registry>"#;
    let registry = crawl_text(xml).unwrap();
    assert_eq!(registry.features().len(), 1);
    let feature = &registry.features()[registry.find_feature(VkVersion(1, 0)).unwrap()];
    assert_eq!(text_of(&registry, feature.name), "VK_VERSION_1_0");
    assert_eq!(feature.version, VkVersion(1, 0));
    assert_eq!(feature.require.len(), 3);
    assert!(matches!(feature.require[0], VkInterface::Type { .. }));
    assert!(matches!(feature.require[1], VkInterface::ApiConst { .. }));
    assert!(matches!(feature.require[2], VkInterface::Command { .. }));
    match feature.remove[0] {
        VkInterface::Type { name, profile } => {
            assert_eq!(text_of(&registry, name), "VkOld");
            assert_eq!(text_of(&registry, profile), "core");
        }
        other => panic!("{:?}", other),
    }
    assert_eq!(registry.extns().len(), 2);
    let surface = &registry.extns()[registry.find_extn(b"VK_KHR_surface").unwrap()];
    assert_eq!(surface.num, 1);
    assert_eq!(surface.require.len(), 7);
    match surface.require[0] {
        VkInterface::ConstDef { name, value, .. } => {
            assert_eq!(text_of(&registry, name), "VK_KHR_SURFACE_SPEC_VERSION");
            assert_eq!(text_of(&registry, value), "25");
        }
        other => panic!("{:?}", other),
    }
    match surface.require[1] {
        VkInterface::ExtnEnum { extends, variant: VkVariant::Value { name, value }, .. } => {
            assert_eq!(text_of(&registry, extends), "VkResult");
            assert_eq!(text_of(&registry, name), "VK_ERROR_SURFACE_LOST_KHR");
            assert_eq!(value, -1000000000);
        }
        other => panic!("{:?}", other),
    }
    match surface.require[2] {
        VkInterface::ExtnEnum { variant: VkVariant::Value { value, .. }, .. } => assert_eq!(value, 1000000000),
        other => panic!("{:?}", other),
    }
    assert!(matches!(
        surface.require[3],
        VkInterface::ExtnEnum { variant: VkVariant::Bitpos { bitpos: 10, .. }, .. }
    ));
    assert!(matches!(surface.require[4], VkInterface::ApiConst { .. }));
    assert!(matches!(surface.require[5], VkInterface::Type { .. }));
    assert!(matches!(surface.require[6], VkInterface::Command { .. }));
    let swapchain = &registry.extns()[registry.find_extn(b"VK_KHR_swapchain").unwrap()];
    match swapchain.require[0] {
        VkInterface::ExtnEnum { variant: VkVariant::Value { value, .. }, .. } => assert_eq!(value, 1000001003),
        other => panic!("{:?}", other),
    }
    match swapchain.require[1] {
        VkInterface::ExtnEnum { variant: VkVariant::Value { value, .. }, .. } => assert_eq!(value, 1000060001),
        other => panic!("{:?}", other),
    }
}

#[test]
fn a_later_type_of_the_same_name_takes_the_place_of_the_earlier() {
    let xml = r#"<registry><types>
        <type name="A" category="enum"/>
        <type name="B" category="enum"/>
        <type name="A" category="struct"><member><type>B</type> <name>b</name></member></type>
    </types></registry>"#;
    let registry = crawl_text(xml).unwrap();
    assert_eq!(registry.types().len(), 2);
    assert_eq!(registry.find_type(b"A"), Some(0));
    assert!(matches!(registry.types()[0], VkType::Struct { .. }));
    let mut names: Vec<String> =
        registry.types().iter().map(|t| text_of(&registry, t.name().unwrap())).collect();
    names.sort();
    names.dedup();
    assert_eq!(names.len(), registry.types().len());
}

#[test]
fn malformed_composition_is_refused() {
    assert_eq!(
        kind_of("<registry><types><type category=\"struct\" name=\"S\"><member><type>int</type>* <name>x</name>[4]</member></type></types></registry>"),
        CrawlErrorKind::Composition
    );
    assert_eq!(
        kind_of("<registry><types><type category=\"struct\" name=\"S\"><member><type>int</type> <name>x</name>[4]<type>int</type>*</member></type></types></registry>"),
        CrawlErrorKind::Composition
    );
    assert_eq!(
        kind_of("<registry><types><type category=\"struct\" name=\"S\"><member><type>int</type>*[4]</member></type></types></registry>"),
        CrawlErrorKind::UnexpectedText
    );
    assert_eq!(
        kind_of("<registry><types><type category=\"struct\" name=\"S\"><member><type>int</type>*<name>x</name>*</member></type></types></registry>"),
        CrawlErrorKind::Composition
    );
    assert_eq!(
        kind_of("<registry><types><type category=\"struct\" name=\"S\"><member>[4]</member></type></types></registry>"),
        CrawlErrorKind::Composition
    );
    assert_eq!(
        kind_of("<registry><types><type category=\"struct\" name=\"S\"><member><type>void</type><type>int</type></member></type></types></registry>"),
        CrawlErrorKind::Composition
    );
    assert_eq!(
        kind_of("<registry><types><type category=\"struct\" name=\"S\"><member><type>int</type><enum>N</enum></member></type></types></registry>"),
        CrawlErrorKind::Composition
    );
    assert_eq!(
        kind_of("<registry><types><type category=\"struct\" name=\"S\"><member><type>int</type> volatile</member></type></types></registry>"),
        CrawlErrorKind::UnexpectedText
    );
    assert_eq!(
        kind_of("<registry><types><type category=\"struct\" name=\"S\"><member><name>a</name><name>b</name></member></type></types></registry>"),
        CrawlErrorKind::DuplicateName
    );
}

#[test]
fn structure_violations_are_refused() {
    assert_eq!(kind_of("<types></types>"), CrawlErrorKind::UnexpectedElement);
    assert_eq!(kind_of("<registry><member/></registry>"), CrawlErrorKind::UnexpectedElement);
    assert_eq!(
        kind_of("<registry><types><type category=\"enum\" name=\"E\"><member/></type></types></registry>"),
        CrawlErrorKind::UnexpectedElement
    );
    assert_eq!(
        kind_of("<registry><feature api=\"vulkan\" name=\"F\" number=\"one\"/></registry>"),
        CrawlErrorKind::BadVersion
    );
    assert_eq!(kind_of("<registry><types></registry>"), CrawlErrorKind::Malformed);
    assert_eq!(kind_of("<registry>"), CrawlErrorKind::Malformed);
}

#[test]
fn events_given_by_hand_are_crawled_alike() {
    let events = vec![
        XmlEvent::Other,
        start("registry", &[]),
        start("comment", &[]),
        chars("free text"),
        start("types", &[]),
        end("types"),
        end("comment"),
        start("types", &[]),
        start("type", &[("category", "handle")]),
        start("type", &[]),
        chars("  VK_DEFINE_HANDLE \n"),
        end("type"),
        chars("("),
        start("name", &[]),
        chars("VkDevice"),
        end("name"),
        chars(")"),
        end("type"),
        end("types"),
        end("registry"),
        XmlEvent::End,
        start("never", &[]),
    ];
    let registry = crawl(&events, 64).unwrap();
    assert_eq!(registry.types().len(), 1);
    assert!(matches!(type_named(&registry, "VkDevice"), VkType::Handle { dispatchable: true, .. }));
    assert_eq!(registry.buffer_cap(), 64);
}

#[test]
fn crawl_reports_the_event_that_it_refuses() {
    let events = vec![start("registry", &[]), start("types", &[]), end("registry")];
    let e = crawl(&events, 64).err().unwrap();
    assert_eq!((e.at, e.kind), (2, CrawlErrorKind::UnexpectedClose));
    let events = vec![start("registry", &[]), start("types", &[]), XmlEvent::End];
    let e = crawl(&events, 64).err().unwrap();
    assert_eq!((e.at, e.kind), (2, CrawlErrorKind::Unclosed));
    let events = vec![start("registry", &[]), start("types", &[])];
    let e = crawl(&events, 64).err().unwrap();
    assert_eq!((e.at, e.kind), (2, CrawlErrorKind::Unclosed));
    let events = vec![end("registry")];
    let e = crawl(&events, 64).err().unwrap();
    assert_eq!((e.at, e.kind), (0, CrawlErrorKind::UnexpectedClose));
    let events = vec![start("registry", &[]), XmlEvent::Malformed];
    let e = crawl(&events, 64).err().unwrap();
    assert_eq!((e.at, e.kind), (1, CrawlErrorKind::Malformed));
}

#[test]
fn an_arena_that_is_too_small_is_reported() {
    let events = vec![
        start("registry", &[]),
        start("types", &[]),
        start("type", &[("name", "VkInstance"), ("category", "enum")]),
        end("type"),
        end("types"),
        end("registry"),
    ];
    let e = crawl(&events, 9).err().unwrap();
    assert_eq!((e.at, e.kind), (2, CrawlErrorKind::ArenaFull));
    assert!(crawl(&events, 10).is_ok());
}

#[test]
fn the_vulkan_registry_is_crawled() {
    let registry = VkRegistry::new(vk_api::VK_XML).unwrap();
    let variants = match type_named(&registry, "VkResult") {
        VkType::Enum { variants, .. } => variants,
        other => panic!("{:?}", other),
    };
    let find = |wanted: &str| {
        variants.iter().find_map(|v| match v {
            VkVariant::Value { name, value } if text_of(&registry, *name) == wanted => Some(*value),
            _ => None,
        })
    };
    assert_eq!(find("VK_SUCCESS"), Some(0));
    assert_eq!(find("VK_NOT_READY"), Some(1));
    assert_eq!(find("VK_ERROR_OUT_OF_HOST_MEMORY"), Some(-1));
    let create = &registry.commands()[registry.find_command(b"vkCreateInstance").unwrap()];
    assert_eq!(create.params.len(), 3);
    assert!(registry.find_feature(VkVersion(1, 0)).is_some());
    let surface = &registry.extns()[registry.find_extn(b"VK_KHR_surface").unwrap()];
    assert_eq!(surface.num, 1);
    assert!(surface.require.iter().any(|i| match i {
        VkInterface::Command { name, .. } => text_of(&registry, *name) == "vkDestroySurfaceKHR",
        _ => false,
    }));
    assert!(surface.require.iter().any(|i| match i {
        VkInterface::ExtnEnum { variant: VkVariant::Value { name, value }, .. } =>
            text_of(&registry, *name) == "VK_ERROR_SURFACE_LOST_KHR" && *value == -1000000000,
        _ => false,
    }));
    let mut names: Vec<Vec<u8>> =
        registry.types().iter().map(|t| registry.text(t.name().unwrap()).to_vec()).collect();
    let before = names.len();
    names.sort();
    names.dedup();
    assert_eq!(names.len(), before);
    assert!(before > 500);
    assert!(registry.commands().len() > 200);
}

#[test]
fn a_document_is_read_as_its_events() {
    let events = read_events(b"<a x='1' y=\"two\"> text <b/><!-- no --></a>");
    assert!(matches!(events[0], XmlEvent::Other));
    match &events[1] {
        XmlEvent::StartElement { name, attributes } => {
            assert_eq!(name, b"a");
            assert_eq!(attributes.len(), 2);
            assert_eq!(attributes[0].name, b"x");
            assert_eq!(attributes[1].value, b"two");
            assert_eq!(find_attribute(attributes, "y"), Some(&b"two"[..]));
            assert_eq!(find_attribute(attributes, "z"), None);
        }
        other => panic!("{:?}", other),
    }
    match &events[2] {
        XmlEvent::Characters { text } => assert_eq!(text, b"text"),
        other => panic!("{:?}", other),
    }
    assert!(matches!(&events[3], XmlEvent::StartElement { name, .. } if name == b"b"));
    assert!(matches!(&events[4], XmlEvent::EndElement { name } if name == b"b"));
    assert!(matches!(&events[5], XmlEvent::EndElement { name } if name == b"a"));
    assert!(matches!(events[6], XmlEvent::End));
    assert_eq!(events.len(), 7);
    let broken = read_events(b"<a><b></a>");
    assert!(matches!(broken.last(), Some(XmlEvent::Malformed)));
    assert_eq!(broken.iter().filter(|e| matches!(e, XmlEvent::Malformed | XmlEvent::End)).count(), 1);
}

#[test]
fn the_first_attribute_of_a_name_is_found() {
    let attributes = vec![
        XmlAttribute { name: b"name".to_vec(), value: b"first".to_vec() },
        XmlAttribute { name: b"name".to_vec(), value: b"second".to_vec() },
        XmlAttribute { name: b"".to_vec(), value: b"empty".to_vec() },
    ];
    assert_eq!(find_attribute(&attributes, "name"), Some(&b"first"[..]));
    assert_eq!(find_attribute(&attributes, ""), Some(&b"empty"[..]));
    assert_eq!(find_attribute(&attributes, "nam"), None);
    assert_eq!(find_attribute(&vec![], "name"), None);
}

#[test]
fn events_are_fed_one_by_one() {
    let mut crawler = Crawler::new(32);
    assert_eq!(crawler.depth(), 0);
    assert_eq!(crawler.feed(&chars("stray")), Ok(()));
    assert_eq!(crawler.feed(&start("registry", &[])), Ok(()));
    assert_eq!(crawler.feed(&start("types", &[])), Ok(()));
    assert_eq!(crawler.depth(), 2);
    assert_eq!(crawler.feed(&start("type", &[("name", "VkA"), ("category", "enum")])), Ok(()));
    assert_eq!(crawler.feed(&XmlEvent::Other), Ok(()));
    assert_eq!(crawler.feed(&XmlEvent::End), Ok(()));
    assert_eq!(crawler.feed(&end("type")), Ok(()));
    assert_eq!(crawler.feed(&end("types")), Ok(()));
    assert_eq!(crawler.depth(), 1);
    assert_eq!(crawler.feed(&end("types")), Err(CrawlErrorKind::UnexpectedClose));
    let mut crawler = Crawler::new(32);
    assert_eq!(crawler.feed(&start("registry", &[])), Ok(()));
    assert_eq!(crawler.feed(&end("registry")), Ok(()));
    assert_eq!(crawler.feed(&XmlEvent::Malformed), Err(CrawlErrorKind::Malformed));
    let mut crawler = Crawler::new(32);
    assert_eq!(crawler.feed(&start("registry", &[])), Ok(()));
    assert_eq!(crawler.feed(&start("types", &[])), Ok(()));
    assert_eq!(crawler.feed(&start("type", &[("name", "VkA"), ("category", "enum")])), Ok(()));
    assert_eq!(crawler.feed(&end("type")), Ok(()));
    let registry = crawler.into_registry();
    assert_eq!(registry.types().len(), 1);
}

#[test]
fn element_names_are_told_apart() {
    assert_eq!(tag_of_name(b"registry"), Tag::Registry);
    assert_eq!(tag_of_name(b"type"), Tag::Type);
    assert_eq!(tag_of_name(b"types"), Tag::Types);
    assert_eq!(tag_of_name(b"enum"), Tag::Enum);
    assert_eq!(tag_of_name(b"enums"), Tag::Enums);
    assert_eq!(tag_of_name(b"extension"), Tag::Extension);
    assert_eq!(tag_of_name(b"extensions"), Tag::Extensions);
    assert_eq!(tag_of_name(b"remove"), Tag::Remove);
    assert_eq!(tag_of_name(b"Type"), Tag::Other);
    assert_eq!(tag_of_name(b"comment"), Tag::Other);
    assert_eq!(tag_of_name(b""), Tag::Other);
}

#[test]
fn the_text_of_a_member_is_told_apart() {
    assert_eq!(token_of(b"const"), ElToken::Const);
    assert_eq!(token_of(b"struct"), ElToken::Struct);
    assert_eq!(token_of(b"const struct"), ElToken::ConstStruct);
    assert_eq!(token_of(b"*"), ElToken::Ptr(1));
    assert_eq!(token_of(b"**"), ElToken::Ptr(2));
    assert_eq!(token_of(b"* const*"), ElToken::Ptr(2));
    assert_eq!(token_of(b"* const * const"), ElToken::Ptr(2));
    assert_eq!(token_of(b"*x"), ElToken::Unknown);
    assert_eq!(token_of(b"const*"), ElToken::Unknown);
    assert_eq!(token_of(&[b'*'; 255]), ElToken::Ptr(255));
    assert_eq!(token_of(&[b'*'; 256]), ElToken::Unknown);
    assert_eq!(token_of(b"["), ElToken::ArrayOpen);
    assert_eq!(token_of(b"]"), ElToken::ArrayClose);
    assert_eq!(token_of(b"[4]"), ElToken::Array(4));
    assert_eq!(token_of(b"[0]"), ElToken::Array(0));
    assert_eq!(token_of(b"[012]"), ElToken::Array(12));
    assert_eq!(token_of(b"[]"), ElToken::Unknown);
    assert_eq!(token_of(b"[4"), ElToken::Unknown);
    assert_eq!(token_of(b"[0x4]"), ElToken::Unknown);
    assert_eq!(token_of(b"[99999999999999999999999]"), ElToken::Unknown);
    assert_eq!(token_of(b""), ElToken::Unknown);
    assert_eq!(token_of(b"volatile"), ElToken::Unknown);
}

#[test]
fn composition_has_the_steps_of_the_rules_and_no_others() {
    let name = InternedRef::Span { start: 0, len: 1 };
    let size = InternedRef::Span { start: 1, len: 1 };
    let forms = [
        VkElType::Var(name),
        VkElType::Const(name),
        VkElType::ConstPtr(name, 1),
        VkElType::MutPtr(name, 1),
        VkElType::ConstArray(name, 2),
        VkElType::MutArray(name, 2),
        VkElType::ConstArrayEnum(name, size),
        VkElType::MutArrayEnum(name, size),
        VkElType::Void,
        VkElType::Unknown,
    ];
    for el in forms.iter() {
        let bare = matches!(el, VkElType::Var(_) | VkElType::Const(_) | VkElType::Void | VkElType::Unknown);
        let named = matches!(el, VkElType::Var(_) | VkElType::Const(_));
        let fixed = matches!(el, VkElType::ConstArray(_, _) | VkElType::ConstArrayEnum(_, _));
        assert_eq!(compose_el(*el, ElToken::Const).is_ok(), bare || fixed);
        assert_eq!(compose_el(*el, ElToken::ConstStruct).is_ok(), bare || fixed);
        if fixed {
            assert_eq!(compose_el(*el, ElToken::Const), Ok(*el));
            assert_eq!(compose_el(*el, ElToken::ConstStruct), Ok(*el));
        }
        assert_eq!(compose_el(*el, ElToken::Ptr(1)).is_ok(), bare);
        assert_eq!(compose_el(*el, ElToken::ArrayOpen).is_ok(), named);
        assert_eq!(compose_el(*el, ElToken::Array(3)).is_ok(), named);
        assert_eq!(compose_el(*el, ElToken::Struct), Ok(*el));
        assert_eq!(compose_el(*el, ElToken::ArrayClose), Ok(*el));
        assert_eq!(compose_el(*el, ElToken::Unknown), Err(CrawlErrorKind::UnexpectedText));
        if !bare {
            assert_eq!(compose_el(*el, ElToken::Ptr(1)), Err(CrawlErrorKind::Composition));
        }
    }
    assert_eq!(compose_el(VkElType::Var(name), ElToken::Ptr(2)), Ok(VkElType::MutPtr(name, 2)));
    assert_eq!(compose_el(VkElType::Const(name), ElToken::Ptr(2)), Ok(VkElType::ConstPtr(name, 2)));
    assert_eq!(compose_el(VkElType::Var(name), ElToken::Const), Ok(VkElType::Const(name)));
    assert_eq!(compose_el(VkElType::MutArray(name, 2), ElToken::Const), Err(CrawlErrorKind::Composition));
    assert_eq!(compose_el(VkElType::MutArrayEnum(name, size), ElToken::Const), Err(CrawlErrorKind::Composition));
    assert_eq!(compose_el(VkElType::ConstPtr(name, 1), ElToken::Const), Err(CrawlErrorKind::Composition));
    assert_eq!(compose_el(VkElType::Const(name), ElToken::Array(3)), Ok(VkElType::ConstArray(name, 3)));
    assert_eq!(
        compose_el(VkElType::Var(name), ElToken::ArrayOpen),
        Ok(VkElType::MutArrayEnum(name, InternedRef::Null))
    );
    assert_eq!(compose_el(VkElType::Void, ElToken::Array(3)), Err(CrawlErrorKind::Composition));
}

#[test]
fn an_extension_value_lies_in_the_range_of_its_extension() {
    assert_eq!(extension_enum_value(1, 0, false), Some(1000000000));
    assert_eq!(extension_enum_value(1, 0, true), Some(-1000000000));
    assert_eq!(extension_enum_value(2, 3, false), Some(1000001003));
    assert_eq!(extension_enum_value(61, 1, true), Some(-1000060001));
    assert_eq!(extension_enum_value(0, 0, false), Some(999999000));
    assert_eq!(extension_enum_value(-5, 7, false), Some(999994007));
    assert_eq!(extension_enum_value(1, 1_000_000_000, false), Some(2000000000));
    assert_eq!(extension_enum_value(1, 2_000_000_000, false), Some(3000000000));
    assert_eq!(extension_enum_value(1_000_000_000_001, 0, false), Some(1_000_001_000_000_000));
    assert_eq!(extension_enum_value(1_000_000_000_000, 0, false), Some(1_000_000_999_999_000));
    let top = isize::MAX as u128 - 1_000_000_000;
    assert_eq!(extension_enum_value(1, top, false), Some(isize::MAX));
    assert_eq!(extension_enum_value(1, top, true), Some(-isize::MAX));
    assert_eq!(extension_enum_value(1, top + 1, true), Some(isize::MIN));
    assert_eq!(extension_enum_value(1, top + 1, false), None);
    assert_eq!(extension_enum_value(1, top + 2, true), None);
    assert_eq!(extension_enum_value(isize::MAX, 0, false), None);
    assert_eq!(extension_enum_value(isize::MIN, 0, false), None);
    assert_eq!(
        extension_enum_value(isize::MIN, (isize::MAX as u128 + 2) * 1000, false),
        Some(1_000_000_000)
    );
    assert_eq!(extension_enum_value(isize::MIN, u128::MAX, false), None);
    assert_eq!(extension_enum_value(0, 1 << 81, true), None);
    for number in [1isize, 2, 17, 200, 999] {
        for offset in [0u128, 1, 500, 999] {
            let v = 1_000_000_000 + (number - 1) * 1000 + offset as isize;
            assert_eq!(extension_enum_value(number, offset, false), Some(v));
            assert_eq!(extension_enum_value(number, offset, true), Some(-v));
        }
    }
}

#[test]
fn a_refusal_names_the_elements_that_were_open() {
    let xml = "<registry><types><type category=\"struct\" name=\"S\"><member><type>int</type>*<name>x</name>*</member></type></types></registry>";
    let e = crawl_text(xml).err().unwrap();
    assert_eq!(e.kind, CrawlErrorKind::Composition);
    assert_eq!(e.path, [Frame::Root, Frame::Types, Frame::TypeDecl, Frame::Member]);
    let e = crawl_text("<registry><commands><command><proto><member/></proto></command></commands></registry>")
        .err()
        .unwrap();
    assert_eq!(e.kind, CrawlErrorKind::UnexpectedElement);
    assert_eq!(e.path, [Frame::Root, Frame::Commands, Frame::Command, Frame::Proto]);
    let events = vec![start("registry", &[]), start("comment", &[]), start("types", &[])];
    let e = crawl(&events, 8).err().unwrap();
    assert_eq!((e.at, e.kind), (3, CrawlErrorKind::Unclosed));
    assert_eq!(e.path, [Frame::Root, Frame::Ignored, Frame::Ignored]);
    let e = crawl(&vec![start("types", &[])], 8).err().unwrap();
    assert_eq!(e.path, []);
    let events = vec![
        start("registry", &[]),
        start("types", &[]),
        start("type", &[("name", "VkTooLongForTheArena"), ("category", "enum")]),
    ];
    let e = crawl(&events, 8).err().unwrap();
    assert_eq!((e.at, e.kind), (2, CrawlErrorKind::ArenaFull));
    assert_eq!(e.path, [Frame::Root, Frame::Types]);
}

#[test]
fn const_after_a_const_array_changes_nothing() {
    let xml = r#"<registry><types><type category="struct" name="S">
        <member>const <type>float</type> <name>a</name>[4]<comment>fixed</comment>const</member>
        <member>const <type>float</type> <name>b</name>[<enum>N</enum>]<comment>named</comment>const struct</member>
    </type></types></registry>"#;
    let registry = crawl_text(xml).unwrap();
    let fields = match type_named(&registry, "S") {
        VkType::Struct { fields, .. } => fields,
        other => panic!("{:?}", other),
    };
    assert!(matches!(fields[0].field_type, VkElType::ConstArray(_, 4)));
    assert!(matches!(fields[1].field_type, VkElType::ConstArrayEnum(_, _)));
    assert_eq!(
        kind_of("<registry><types><type category=\"struct\" name=\"S\"><member><type>float</type> <name>a</name>[4]<comment>c</comment>const</member></type></types></registry>"),
        CrawlErrorKind::Composition
    );
}

#[test]
fn an_offset_gives_its_value_whenever_it_fits() {
    let xml = r#"<registry><extensions><extension name="VK_X" number="3">
        <require>
          <enum offset="2000000000" extends="VkE" name="A"/>
          <enum offset="2000000000" extends="VkE" dir="-" name="B"/>
          <enum offset="9223372035854773807" extends="VkE" name="C"/>
          <enum offset="9223372035854773808" extends="VkE" name="D"/>
          <enum offset="9223372035854773808" extends="VkE" dir="-" name="E"/>
          <enum offset="7" extnumber="2000000000000" extends="VkE" name="F"/>
          <enum offset="0x10" extends="VkE" name="G"/>
          <enum offset="340282366920938463463374607431768211456" extends="VkE" name="H"/>
          <enum offset="1" extnumber="x" extends="VkE" name="I"/>
        </require></extension></extensions></registry>"#;
    let registry = crawl_text(xml).unwrap();
    let extn = &registry.extns()[0];
    let got: Vec<(String, isize)> = extn
        .require
        .iter()
        .map(|i| match i {
            VkInterface::ExtnEnum { variant: VkVariant::Value { name, value }, .. } => {
                (text_of(&registry, *name), *value)
            }
            other => panic!("{:?}", other),
        })
        .collect();
    assert_eq!(
        got,
        [
            ("A".to_string(), 3000002000),
            ("B".to_string(), -3000002000),
            ("C".to_string(), isize::MAX),
            ("E".to_string(), isize::MIN),
            ("F".to_string(), 2000000999999007),
            ("G".to_string(), 1000002016),
        ]
    );
}
