use vk_generator::InternedRef;
use vk_generator::StringArena;

#[test]
fn intern_returns_consecutive_spans() {
    let mut arena = StringArena::with_capacity(16);
    let a = arena.intern("VkResult");
    let b = arena.intern("vk");
    assert_eq!(a, InternedRef::Span { start: 0, len: 8 });
    assert_eq!(b, InternedRef::Span { start: 8, len: 2 });
    assert_eq!(arena.get(a), b"VkResult");
    assert_eq!(arena.get(b), b"vk");
    assert_eq!(arena.len(), 10);
    assert_eq!(arena.buffer_cap(), 16);
}

#[test]
fn earlier_text_stays_after_later_interns() {
    let mut arena = StringArena::with_capacity(64);
    let words = ["VkInstance", "", "vkCreateInstance", "x", "VK_SUCCESS"];
    let mut refs = Vec::new();
    for w in words.iter() {
        refs.push(arena.intern(w));
        for (r, earlier) in refs.iter().zip(words.iter()) {
            assert_eq!(arena.get(*r), earlier.as_bytes());
        }
    }
}

#[test]
fn try_intern_refuses_what_does_not_fit() {
    let mut arena = StringArena::with_capacity(4);
    assert_eq!(arena.try_intern(b"abc"), Some(InternedRef::Span { start: 0, len: 3 }));
    assert_eq!(arena.try_intern(b"de"), None);
    assert_eq!(arena.len(), 3);
    assert!(arena.has_room(1));
    assert!(!arena.has_room(2));
    assert_eq!(arena.try_intern(b"d"), Some(InternedRef::Span { start: 3, len: 1 }));
}

#[test]
fn null_and_stray_references_read_empty() {
    let mut arena = StringArena::with_capacity(8);
    arena.intern("abcd");
    assert_eq!(arena.get(InternedRef::null()), b"");
    assert!(InternedRef::null().is_null());
    assert!(!InternedRef::Span { start: 0, len: 0 }.is_null());
    assert_eq!(arena.get(InternedRef::Span { start: 2, len: 3 }), b"");
    assert_eq!(arena.get(InternedRef::Span { start: usize::MAX, len: 2 }), b"");
    assert_eq!(arena.get(InternedRef::Span { start: 1, len: 3 }), b"bcd");
}
