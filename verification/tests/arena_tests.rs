use bumpalo::Bump;
use latex2mmlc::arena::{Arena, Buffer};
use latex2mmlc::ast::Node;

#[test]
fn arena_test() {
    let arena = Arena::new();
    let node = Node::Space("Hello, world!");
    let reference = arena.push(node);
    assert!(matches!(reference, Node::Space("Hello, world!")));
}

#[test]
fn buffer_extend() {
    let arena = Arena::new();
    let mut buffer = Buffer::new(0);
    let mut builder = buffer.get_builder();
    builder.push_char('H');
    builder.push_char('i');
    let str_ref = builder.finish(&arena);
    assert_eq!(str_ref, "Hi");
}

#[test]
fn buffer_manual_reference() {
    let arena = Arena::new();
    let mut buffer = Buffer::new(0);
    let mut builder = buffer.get_builder();
    assert_eq!(builder.byte_len(), 0);
    builder.push_char('H');
    builder.push_char('i');
    builder.push_char('↩'); // This is a multi-byte character.
    assert_eq!(builder.byte_len(), 5);
    let str_ref = builder.finish(&arena);
    assert_eq!(str_ref.len(), 5);
    assert_eq!(str_ref, "Hi↩");
}

struct CycleParticipant<'a> {
    val: i32,
    next: Option<&'a mut CycleParticipant<'a>>,
}

#[test]
fn basic_arena() {
    let arena = Bump::new();

    let a = arena.alloc(CycleParticipant { val: 1, next: None });
    let b = arena.alloc(CycleParticipant { val: 2, next: None });
    a.next = Some(b);
    let c = arena.alloc(CycleParticipant { val: 3, next: None });
    a.next.as_mut().unwrap().next = Some(c);

    assert_eq!(a.val, 1);
    assert_eq!(a.next.as_ref().unwrap().val, 2);
    assert_eq!(a.next.as_ref().unwrap().next.as_ref().unwrap().val, 3);
}

#[test]
fn builder_reuse_never_leaks() {
    // Acquiring a builder twice in sequence on the same buffer: the second
    // acquisition must see none of the first one's content.
    let arena = Arena::new();
    let mut buffer = Buffer::new(16);

    let mut first = buffer.get_builder();
    first.push_str("first content");
    let s1 = first.finish(&arena);
    assert_eq!(s1, "first content");

    let mut second = buffer.get_builder();
    assert_eq!(second.byte_len(), 0);
    second.push_str("2nd");
    let s2 = second.finish(&arena);
    assert_eq!(s2, "2nd");
    // The earlier committed slice is still alive and untouched.
    assert_eq!(s1, "first content");
}

#[test]
fn push_slice_preserves_order() {
    let arena = Arena::new();
    let n1 = arena.push(Node::Letter('a'));
    let n2 = arena.push(Node::Letter('b'));
    let n3 = arena.push(Node::Letter('c'));
    let refs: [&Node; 3] = [n1, n2, n3];
    let slice = arena.push_slice(&refs);
    assert_eq!(slice.len(), 3);
    assert!(matches!(slice[0], Node::Letter('a')));
    assert!(matches!(slice[1], Node::Letter('b')));
    assert!(matches!(slice[2], Node::Letter('c')));
}

#[test]
fn arena_references_stay_valid() {
    // Nodes and slices allocated early remain readable for the arena's
    // whole scope, even after many further allocations.
    let arena = Arena::new();
    let first = arena.push(Node::Number("1"));
    let mut i = 0;
    while i < 1000 {
        arena.push(Node::Letter('x'));
        i += 1;
    }
    assert!(matches!(first, Node::Number("1")));
}

#[test]
fn builder_row_round_trip() {
    // Build a string in the buffer, commit it, and hang it into a row of
    // nodes: everything stays alive together with the arena.
    let arena = Arena::new();
    let mut buffer = Buffer::new(0);
    let mut builder = buffer.get_builder();
    builder.push_str("sin");
    builder.push_char('h');
    let text = builder.finish(&arena);
    assert_eq!(text, "sinh");

    let t = arena.push(Node::Text(text));
    let num = arena.push(Node::Number("2"));
    let refs: [&Node; 2] = [t, num];
    let children = arena.push_slice(&refs);
    let row = arena.push(Node::Row(children));
    match row {
        Node::Row(items) => {
            assert_eq!(items.len(), 2);
            assert!(matches!(items[0], Node::Text("sinh")));
            assert!(matches!(items[1], Node::Number("2")));
        }
        _ => panic!("expected a row"),
    }
}
