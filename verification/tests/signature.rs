use vk_generator::signature::phrase_of;
use vk_generator::signature::signature_of;
use vk_generator::signature::Phrase;
use vk_generator::CrawlErrorKind;
use vk_generator::InternedRef;
use vk_generator::VkElType;
use vk_generator::VkRegistry;
use vk_generator::VkType;

fn phrase(konst: bool, name: &str, stars: usize) -> Phrase {
    Phrase { konst, name: name.as_bytes().to_vec(), stars }
}

fn text_of(registry: &VkRegistry, r: InternedRef) -> String {
    String::from_utf8(registry.text(r).to_vec()).unwrap()
}

#[test]
fn a_phrase_gives_the_type_its_constness_and_its_depth() {
    assert_eq!(phrase_of(b"const char* pMessage"), phrase(true, "char", 1));
    assert_eq!(phrase_of(b"void*   pUserData"), phrase(false, "void", 1));
    assert_eq!(phrase_of(b"  size_t size"), phrase(false, "size_t", 0));
    assert_eq!(phrase_of(b"typedef VkBool32 "), phrase(false, "VkBool32", 0));
    assert_eq!(phrase_of(b"const struct wl_display ** d"), phrase(true, "wl_display", 2));
    assert_eq!(phrase_of(b"struct const X"), phrase(true, "X", 0));
    assert_eq!(phrase_of(b"char const* p"), phrase(false, "char", 1));
    assert_eq!(phrase_of(b"void"), phrase(false, "void", 0));
    assert_eq!(phrase_of(b" allocationScope);"), phrase(false, "allocationScope", 0));
    assert_eq!(phrase_of(b""), phrase(false, "", 0));
    assert_eq!(phrase_of(b" * ; "), phrase(false, "", 1));
    assert_eq!(phrase_of(b"const"), phrase(true, "", 0));
}

#[test]
fn a_declaration_gives_the_return_type_and_the_parameters() {
    let text = b"typedef void* (VKAPI_PTR * PFN_vkReallocationFunction )(\n    void*  pUserData,\n    size_t size, const VkInfo * pInfo , VkSystemAllocationScope allocationScope);";
    assert_eq!(
        signature_of(text),
        [
            phrase(false, "void", 1),
            phrase(false, "void", 1),
            phrase(false, "size_t", 0),
            phrase(true, "VkInfo", 1),
            phrase(false, "VkSystemAllocationScope", 0),
        ]
    );
    assert_eq!(
        signature_of(b"typedef void (VKAPI_PTR * PFN_vkVoidFunction )(void);"),
        [phrase(false, "void", 0)]
    );
    assert_eq!(signature_of(b"typedef VkBool32 (VKAPI_PTR * PFN_x )();"), [phrase(false, "VkBool32", 0)]);
    assert_eq!(signature_of(b"typedef int"), [phrase(false, "int", 0)]);
    assert_eq!(signature_of(b"typedef int (x"), [phrase(false, "int", 0)]);
    assert_eq!(signature_of(b""), [phrase(false, "", 0)]);
    assert_eq!(signature_of(b"typedef a (b)(c d,, e f,)"), [phrase(false, "a", 0), phrase(false, "c", 0), phrase(false, "e", 0)]);
}

#[test]
fn a_function_pointer_is_crawled_with_its_whole_signature() {
    let xml = r#"<registry><types>
        <type category="funcpointer">typedef void* (VKAPI_PTR *<name>PFN_vkReallocationFunction</name>)(
    void*                                       pUserData,
    void*                                       pOriginal,
    size_t                                      size,
    <type>VkSystemAllocationScope</type>                     allocationScope,
    const <type>char</type>*                                 pMessage);</type>
        <type category="funcpointer">typedef void (VKAPI_PTR *<name>PFN_vkVoidFunction</name>)(void);</type>
        <type category="funcpointer">typedef <type>VkBool32</type> (VKAPI_PTR *<name>PFN_vkCallback</name>)(
    <type>uint64_t</type> object);</type>
    </types></registry>"#;
    let registry = VkRegistry::new(xml.as_bytes()).unwrap();
    match &registry.types()[registry.find_type(b"PFN_vkReallocationFunction").unwrap()] {
        VkType::FuncPointer { ret, params, .. } => {
            match ret {
                VkElType::MutPtr(t, 1) => assert_eq!(text_of(&registry, *t), "void"),
                other => panic!("{:?}", other),
            }
            assert_eq!(params.len(), 5);
            match params[0] {
                VkElType::MutPtr(t, 1) => assert_eq!(text_of(&registry, t), "void"),
                other => panic!("{:?}", other),
            }
            match params[2] {
                VkElType::Var(t) => assert_eq!(text_of(&registry, t), "size_t"),
                other => panic!("{:?}", other),
            }
            match params[3] {
                VkElType::Var(t) => assert_eq!(text_of(&registry, t), "VkSystemAllocationScope"),
                other => panic!("{:?}", other),
            }
            match params[4] {
                VkElType::ConstPtr(t, 1) => assert_eq!(text_of(&registry, t), "char"),
                other => panic!("{:?}", other),
            }
        }
        other => panic!("{:?}", other),
    }
    match &registry.types()[registry.find_type(b"PFN_vkVoidFunction").unwrap()] {
        VkType::FuncPointer { ret, params, .. } => {
            assert_eq!(*ret, VkElType::Void);
            assert!(params.is_empty());
        }
        other => panic!("{:?}", other),
    }
    match &registry.types()[registry.find_type(b"PFN_vkCallback").unwrap()] {
        VkType::FuncPointer { ret, params, .. } => {
            match ret {
                VkElType::Var(t) => assert_eq!(text_of(&registry, *t), "VkBool32"),
                other => panic!("{:?}", other),
            }
            assert_eq!(params.len(), 1);
        }
        other => panic!("{:?}", other),
    }
}

#[test]
fn a_pointer_deeper_than_a_byte_counts_is_refused() {
    let stars = "*".repeat(256);
    let xml = format!(
        "<registry><types><type category=\"funcpointer\">typedef void{} (VKAPI_PTR *<name>PFN_x</name>)(void);</type></types></registry>",
        stars
    );
    match VkRegistry::new(xml.as_bytes()) {
        Err(e) => assert_eq!(e.kind, CrawlErrorKind::Composition),
        Ok(_) => panic!("the document was accepted"),
    }
    let stars = "*".repeat(255);
    let xml = format!(
        "<registry><types><type category=\"funcpointer\">typedef void{} (VKAPI_PTR *<name>PFN_x</name>)(void);</type></types></registry>",
        stars
    );
    let registry = VkRegistry::new(xml.as_bytes()).unwrap();
    match &registry.types()[0] {
        VkType::FuncPointer { ret, .. } => assert!(matches!(ret, VkElType::MutPtr(_, 255))),
        other => panic!("{:?}", other),
    }
}
