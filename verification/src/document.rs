//! Parsed markup and the three questions that are asked of it: which element
//! a selector matches first, what an attribute of an element holds, and what
//! text an element contains.
//!
//! The tree is built and searched by the `tl` crate. Its answers are named
//! here by uninterpreted functions over the text of the markup. The text of
//! an element is put together here, from the children and the text nodes
//! that the tree reports, with a work list in place of recursion, so that no
//! depth of nesting can exhaust the stack. A selector is handed to the tree
//! only if it has few enough parts for the same reason.

use tl::{Node, NodeHandle, ParserOptions, VDom};
use vstd::prelude::*;
use vstd::string::*;

verus! {

/// The tree that `tl` builds over a piece of markup. Nothing of its inside is
/// known here.
#[verifier::external_type_specification]
#[verifier::external_body]
pub struct ExVDom<'a>(VDom<'a>);

/// The place in the node table of the first node of `markup` that `selector`
/// matches, as `tl::VDom::query_selector` yields it first; `None` where the
/// selector is not understood or matches nothing.
pub uninterp spec fn markup_first_match(markup: Seq<char>, selector: Seq<char>) -> Option<u32>;

/// The value of the attribute `name` on node `element` of `markup`, as
/// `tl::Attributes::get` finds it; `None` where the node is not an element,
/// or the attribute is missing or was written without a value.
pub uninterp spec fn markup_attribute(markup: Seq<char>, element: u32, name: Seq<char>) -> Option<
    Seq<char>,
>;

/// The nodes that stand directly inside node `element` of `markup`, in
/// document order, as `tl::Children::top` lists them; empty where the node is
/// not an element.
pub uninterp spec fn markup_children(markup: Seq<char>, element: u32) -> Seq<u32>;

/// Whether node `node` of `markup` is an element, a `tl::Node::Tag`.
pub uninterp spec fn markup_is_element(markup: Seq<char>, node: u32) -> bool;

/// The text that node `node` of `markup` holds if it is a text node, a
/// `tl::Node::Raw`, as `tl::Bytes::as_utf8_str` reads it; `None` for an
/// element, a comment, and a number that names no node.
pub uninterp spec fn markup_text(markup: Seq<char>, node: u32) -> Option<Seq<char>>;

/// The most bytes that are no name bytes that a selector may hold and still
/// be handed on to be read.
pub const SELECTOR_BREAK_LIMIT: usize = 64;

/// Whether `byte` can stand in a name inside a selector: a letter or a digit
/// of ASCII, or one of `-`, `_`, `:`, `+`, `/`.
pub open spec fn is_name_byte(byte: u8) -> bool {
    ||| 0x30 <= byte <= 0x39
    ||| 0x41 <= byte <= 0x5a
    ||| 0x61 <= byte <= 0x7a
    ||| byte == 0x2d
    ||| byte == 0x5f
    ||| byte == 0x3a
    ||| byte == 0x2b
    ||| byte == 0x2f
}

/// How many of `bytes` are no name bytes.
pub open spec fn breaks(bytes: Seq<u8>) -> nat
    decreases bytes.len(),
{
    if bytes.len() == 0 {
        0
    } else {
        breaks(bytes.drop_last()) + if is_name_byte(bytes.last()) {
            0nat
        } else {
            1nat
        }
    }
}

/// How many bytes of `selector`, written in UTF-8, are no name bytes. Names
/// of any length add nothing to it: `title` has none, and a selector of the
/// form `tag[attr='value']` has five.
pub open spec fn selector_breaks(selector: Seq<char>) -> nat {
    breaks(vstd::utf8::encode_utf8(selector))
}

/// Whether `c` can stand in a name inside a selector; see [`is_name_byte`].
pub open spec fn is_name_char(c: char) -> bool {
    ||| '0' <= c <= '9'
    ||| 'A' <= c <= 'Z'
    ||| 'a' <= c <= 'z'
    ||| c == '-'
    ||| c == '_'
    ||| c == ':'
    ||| c == '+'
    ||| c == '/'
}

/// Whether `text` is made of name characters only.
pub open spec fn is_name(text: Seq<char>) -> bool {
    forall|i: int| 0 <= i < text.len() ==> is_name_char(#[trigger] text[i])
}

/// The selector `tag[attribute='value']`.
pub open spec fn attribute_selector(tag: Seq<char>, attribute: Seq<char>, value: Seq<char>) -> Seq<
    char,
> {
    tag + seq!['['] + attribute + seq!['=', '\''] + value + seq!['\'', ']']
}

/// How many of the first `upto` characters of `text` are no name characters.
pub open spec fn char_breaks(text: Seq<char>, upto: nat) -> nat
    decreases upto,
{
    if upto == 0 {
        0
    } else {
        char_breaks(text, (upto - 1) as nat) + if is_name_char(text[upto - 1]) {
            0nat
        } else {
            1nat
        }
    }
}

/// Whether the first `upto` characters of `text` are all of ASCII.
pub open spec fn ascii_upto(text: Seq<char>, upto: nat) -> bool
    decreases upto,
{
    upto == 0 || ('\0' <= text[upto - 1] <= '\u{7f}' && ascii_upto(text, (upto - 1) as nat))
}

/// The first node of `markup` that `selector` matches. A selector with more
/// than [`SELECTOR_BREAK_LIMIT`] bytes that are no name bytes is not read and
/// matches nothing.
pub open spec fn first_match_in(markup: Seq<char>, selector: Seq<char>) -> Option<u32> {
    if selector_breaks(selector) <= SELECTOR_BREAK_LIMIT {
        markup_first_match(markup, selector)
    } else {
        None
    }
}

/// The text below node `node` of `markup`: a text node's own text, and for
/// any other node the texts below its children, one after another in
/// document order. Tags and comments add nothing.
pub open spec fn text_of(markup: Seq<char>, node: u32) -> Seq<char>
    decreases u32::MAX - node, 1nat, 0nat,
{
    match markup_text(markup, node) {
        Some(own) => own,
        None => texts_of(markup, node, markup_children(markup, node)),
    }
}

/// The texts below `nodes`, one after another. The nodes are children of
/// `parent`; a node of the table always stands behind its parent.
pub open spec fn texts_of(markup: Seq<char>, parent: u32, nodes: Seq<u32>) -> Seq<char>
    decreases u32::MAX - parent, 0nat, nodes.len(),
{
    if nodes.len() == 0 {
        Seq::empty()
    } else {
        let first = if nodes[0] > parent {
            text_of(markup, nodes[0])
        } else {
            Seq::empty()
        };
        first + texts_of(markup, parent, nodes.drop_first())
    }
}

/// The text inside node `element` of `markup`; `None` where the node is not
/// an element.
pub open spec fn text_in(markup: Seq<char>, element: u32) -> Option<Seq<char>> {
    if markup_is_element(markup, element) {
        Some(text_of(markup, element))
    } else {
        None
    }
}

/// The number of bytes that `markup` takes in UTF-8 fits the parser's 32-bit
/// positions.
pub open spec fn fits_parser(markup: Seq<char>) -> bool {
    vstd::utf8::encode_utf8(markup).len() <= u32::MAX
}

/// A piece of markup together with the tree that was built over it. The only
/// way to make one is [`ParsedDocument::parse`], so the tree always belongs
/// to the text.
pub struct ParsedDocument<'a> {
    markup: &'a str,
    tree: VDom<'a>,
}

/// An element of a parsed document: its place in the document's node table.
#[derive(Clone, Copy, Debug, PartialEq, Eq)]
pub struct ElementHandle {
    pub index: u32,
}

impl<'a> View for ParsedDocument<'a> {
    type V = Seq<char>;

    closed spec fn view(&self) -> Seq<char> {
        self.markup@
    }
}

/// Calls `tl::parse` with the default options. By the parser's source it
/// fails on one condition only, an input of more than `u32::MAX` bytes; the
/// tree is stored beside the text it was built over.
#[verifier::external_body]
fn build_tree<'a>(markup: &'a str) -> (document: Option<ParsedDocument<'a>>)
    ensures
        document is Some <==> fits_parser(markup@),
        document matches Some(d) ==> d@ == markup@,
{
    match tl::parse(markup, ParserOptions::default()) {
        Ok(tree) => Some(ParsedDocument { markup, tree }),
        Err(_) => None,
    }
}

/// Calls `tl::VDom::query_selector` and takes the first handle that the
/// returned iterator yields, as the number inside it. `tl` reads a selector
/// by recursive descent, and a further call starts only at a byte that is no
/// name byte or right behind one. So the calls nest at most twice as deep as
/// the selector has such bytes, and those have to be few.
#[verifier::external_body]
fn query_first(document: &ParsedDocument<'_>, selector: &str) -> (found: Option<u32>)
    requires
        selector_breaks(selector@) <= SELECTOR_BREAK_LIMIT,
    ensures
        found == markup_first_match(document@, selector@),
{
    match document.tree.query_selector(selector) {
        Some(mut matches) => matches.next().map(|handle| handle.get_inner()),
        None => None,
    }
}

/// Looks node `element` up with `tl::NodeHandle::get` and, where it is an
/// element, copies out the handles that `tl::Children::top` lists for it,
/// each as the number inside it. The parser gives every node the next free
/// place in its table and only then hangs it into a node that is already
/// there, so a child always has a greater number than its parent.
#[verifier::external_body]
fn query_children(document: &ParsedDocument<'_>, element: u32) -> (children: Vec<u32>)
    ensures
        children@ == markup_children(document@, element),
        forall|i: int| 0 <= i < children.len() ==> #[trigger] children[i] > element,
{
    match NodeHandle::new(element).get(document.tree.parser()) {
        Some(Node::Tag(tag)) => {
            tag.children().top().iter().map(|child| child.get_inner()).collect()
        },
        _ => Vec::new(),
    }
}

/// Looks node `node` up with `tl::NodeHandle::get` and tells whether it is
/// there and is a `tl::Node::Tag`.
#[verifier::external_body]
fn query_is_element(document: &ParsedDocument<'_>, node: u32) -> (element: bool)
    ensures
        element == markup_is_element(document@, node),
{
    match NodeHandle::new(node).get(document.tree.parser()) {
        Some(Node::Tag(_)) => true,
        _ => false,
    }
}

/// Looks node `node` up with `tl::NodeHandle::get` and, where it is a
/// `tl::Node::Raw`, copies its text out through `tl::Bytes::as_utf8_str`.
#[verifier::external_body]
fn query_text(document: &ParsedDocument<'_>, node: u32) -> (text: Option<String>)
    ensures
        text.deep_view() == markup_text(document@, node),
{
    match NodeHandle::new(node).get(document.tree.parser()) {
        Some(Node::Raw(bytes)) => Some(bytes.as_utf8_str().into_owned()),
        _ => None,
    }
}

/// Looks node `element` up with `tl::NodeHandle::get` and, where it is an
/// element, calls `tl::Attributes::get` on its attributes. A value is copied
/// out as text through `tl::Bytes::as_utf8_str`.
#[verifier::external_body]
fn query_attribute(document: &ParsedDocument<'_>, element: u32, name: &str) -> (value: Option<
    String,
>)
    ensures
        value.deep_view() == markup_attribute(document@, element, name@),
{
    match NodeHandle::new(element).get(document.tree.parser()) {
        Some(Node::Tag(tag)) => match tag.attributes().get(name) {
            Some(Some(bytes)) => Some(bytes.as_utf8_str().into_owned()),
            _ => None,
        },
        _ => None,
    }
}

/// A beginning of `bytes` holds no more breaks than all of them.
proof fn lemma_breaks_of_a_beginning(bytes: Seq<u8>, upto: int)
    requires
        0 <= upto <= bytes.len(),
    ensures
        breaks(bytes.take(upto)) <= breaks(bytes),
    decreases bytes.len(),
{
    if upto == bytes.len() {
        assert(bytes.take(upto) =~= bytes);
    } else {
        lemma_breaks_of_a_beginning(bytes.drop_last(), upto);
        assert(bytes.drop_last().take(upto) =~= bytes.take(upto));
    }
}

/// Breaks add up over two pieces of text put together.
proof fn lemma_breaks_add_up(front: Seq<u8>, back: Seq<u8>)
    ensures
        breaks(front + back) == breaks(front) + breaks(back),
    decreases back.len(),
{
    if back.len() == 0 {
        assert(front + back =~= front);
    } else {
        lemma_breaks_add_up(front, back.drop_last());
        assert((front + back).drop_last() =~= front + back.drop_last());
    }
}

/// The bytes of text in ASCII: each character as one byte.
spec fn ascii_bytes(text: Seq<char>) -> Seq<u8> {
    Seq::new(text.len(), |i: int| text[i] as u8)
}

/// A name holds no break.
proof fn lemma_a_name_has_no_breaks(name: Seq<char>)
    requires
        is_name(name),
    ensures
        breaks(ascii_bytes(name)) == 0,
        vstd::utf8::is_ascii_chars(name),
    decreases name.len(),
{
    if name.len() > 0 {
        lemma_a_name_has_no_breaks(name.drop_last());
        assert(ascii_bytes(name).drop_last() =~= ascii_bytes(name.drop_last()));
        assert(is_name_char(name.last()));
        assert(is_name_byte(name.last() as u8));
    }
}

/// In text of ASCII every character is one byte, so its breaks can be
/// counted character by character.
pub proof fn lemma_breaks_of_ascii(text: Seq<char>)
    requires
        ascii_upto(text, text.len()),
    ensures
        selector_breaks(text) == char_breaks(text, text.len()),
{
    lemma_ascii_upto(text, text.len());
    assert(vstd::utf8::is_ascii_chars(text));
    vstd::utf8::is_ascii_chars_encode_utf8(text);
    assert(vstd::utf8::encode_utf8(text) =~= ascii_bytes(text));
    lemma_breaks_by_character(text, text.len());
    assert(ascii_bytes(text).take(text.len() as int) =~= ascii_bytes(text));
}

proof fn lemma_ascii_upto(text: Seq<char>, upto: nat)
    requires
        upto <= text.len(),
        ascii_upto(text, upto),
    ensures
        forall|i: int| 0 <= i < upto ==> '\0' <= #[trigger] text[i] <= '\u{7f}',
    decreases upto,
{
    if upto > 0 {
        lemma_ascii_upto(text, (upto - 1) as nat);
    }
}

proof fn lemma_breaks_by_character(text: Seq<char>, upto: nat)
    requires
        upto <= text.len(),
        vstd::utf8::is_ascii_chars(text),
    ensures
        breaks(ascii_bytes(text).take(upto as int)) == char_breaks(text, upto),
    decreases upto,
{
    if upto > 0 {
        lemma_breaks_by_character(text, (upto - 1) as nat);
        let bytes = ascii_bytes(text).take(upto as int);
        assert(bytes.drop_last() =~= ascii_bytes(text).take(upto - 1));
        let c = text[upto - 1];
        assert(bytes.last() == c as u8);
        assert('\0' <= c <= '\u{7f}');
        assert(is_name_byte(c as u8) == is_name_char(c));
    }
}

/// A tag name and a selector of the form `tag[attribute='value']` are read
/// whatever their length: the one holds no byte outside of names, the other
/// five.
pub proof fn lemma_plain_selectors_are_read(
    markup: Seq<char>,
    tag: Seq<char>,
    attribute: Seq<char>,
    value: Seq<char>,
)
    requires
        is_name(tag),
        is_name(attribute),
        is_name(value),
    ensures
        selector_breaks(tag) == 0,
        selector_breaks(attribute_selector(tag, attribute, value)) == 5,
        first_match_in(markup, tag) == markup_first_match(markup, tag),
        first_match_in(markup, attribute_selector(tag, attribute, value)) == markup_first_match(
            markup,
            attribute_selector(tag, attribute, value),
        ),
{
    let open = seq!['['];
    let is = seq!['=', '\''];
    let close = seq!['\'', ']'];
    let whole = attribute_selector(tag, attribute, value);
    lemma_a_name_has_no_breaks(tag);
    lemma_a_name_has_no_breaks(attribute);
    lemma_a_name_has_no_breaks(value);
    vstd::utf8::is_ascii_chars_encode_utf8(tag);
    assert(vstd::utf8::encode_utf8(tag) =~= ascii_bytes(tag));
    assert(vstd::utf8::is_ascii_chars(whole));
    vstd::utf8::is_ascii_chars_encode_utf8(whole);
    assert(vstd::utf8::encode_utf8(whole) =~= ascii_bytes(whole));
    assert(ascii_bytes(whole) =~= ascii_bytes(tag) + ascii_bytes(open) + ascii_bytes(attribute)
        + ascii_bytes(is) + ascii_bytes(value) + ascii_bytes(close));
    lemma_breaks_add_up(ascii_bytes(tag), ascii_bytes(open));
    lemma_breaks_add_up(ascii_bytes(tag) + ascii_bytes(open), ascii_bytes(attribute));
    lemma_breaks_add_up(
        ascii_bytes(tag) + ascii_bytes(open) + ascii_bytes(attribute),
        ascii_bytes(is),
    );
    lemma_breaks_add_up(
        ascii_bytes(tag) + ascii_bytes(open) + ascii_bytes(attribute) + ascii_bytes(is),
        ascii_bytes(value),
    );
    lemma_breaks_add_up(
        ascii_bytes(tag) + ascii_bytes(open) + ascii_bytes(attribute) + ascii_bytes(is)
            + ascii_bytes(value),
        ascii_bytes(close),
    );
    assert(breaks(ascii_bytes(open)) == 1) by {
        assert(ascii_bytes(open).drop_last() =~= Seq::<u8>::empty());
        assert(ascii_bytes(open).last() == 0x5b);
        reveal_with_fuel(breaks, 2);
    }
    assert(breaks(ascii_bytes(is)) == 2) by {
        assert(ascii_bytes(is).drop_last().drop_last() =~= Seq::<u8>::empty());
        assert(ascii_bytes(is).last() == 0x27);
        assert(ascii_bytes(is).drop_last().last() == 0x3d);
        reveal_with_fuel(breaks, 3);
    }
    assert(breaks(ascii_bytes(close)) == 2) by {
        assert(ascii_bytes(close).drop_last().drop_last() =~= Seq::<u8>::empty());
        assert(ascii_bytes(close).last() == 0x5d);
        assert(ascii_bytes(close).drop_last().last() == 0x27);
        reveal_with_fuel(breaks, 3);
    }
}

/// Whether `byte` is a name byte.
fn name_byte(byte: u8) -> (name: bool)
    ensures
        name == is_name_byte(byte),
{
    (0x30 <= byte && byte <= 0x39) || (0x41 <= byte && byte <= 0x5a) || (0x61 <= byte && byte
        <= 0x7a) || byte == 0x2d || byte == 0x5f || byte == 0x3a || byte == 0x2b || byte == 0x2f
}

/// Whether `selector` has few enough parts to be read: no more than
/// [`SELECTOR_BREAK_LIMIT`] of its bytes are no name bytes.
pub fn is_readable(selector: &str) -> (readable: bool)
    ensures
        readable == (selector_breaks(selector@) <= SELECTOR_BREAK_LIMIT),
{
    let bytes = selector.as_bytes();
    let mut seen: usize = 0;
    let mut at: usize = 0;
    while at < bytes.len()
        invariant
            at <= bytes.len(),
            bytes@ == vstd::utf8::encode_utf8(selector@),
            seen == breaks(bytes@.take(at as int)),
            seen <= SELECTOR_BREAK_LIMIT,
        decreases bytes.len() - at,
    {
        proof {
            assert(bytes@.take(at + 1).drop_last() =~= bytes@.take(at as int));
            lemma_breaks_of_a_beginning(bytes@, at + 1);
        }
        if !name_byte(bytes[at]) {
            if seen == SELECTOR_BREAK_LIMIT {
                return false;
            }
            seen += 1;
        }
        at += 1;
    }
    assert(bytes@.take(at as int) =~= bytes@);
    true
}

/// How many nodes stand at and below node `node` of `markup`.
spec fn weight_of(markup: Seq<char>, node: u32) -> nat
    decreases u32::MAX - node, 1nat, 0nat,
{
    1 + weights_of(markup, node, markup_children(markup, node))
}

/// How many nodes stand at and below `nodes`, the children of `parent`.
spec fn weights_of(markup: Seq<char>, parent: u32, nodes: Seq<u32>) -> nat
    decreases u32::MAX - parent, 0nat, nodes.len(),
{
    if nodes.len() == 0 {
        0
    } else {
        let first = if nodes[0] > parent {
            weight_of(markup, nodes[0])
        } else {
            0
        };
        first + weights_of(markup, parent, nodes.drop_first())
    }
}

/// The texts below the nodes of a work list, in the order in which they are
/// taken from it: the last first.
spec fn pending_text(markup: Seq<char>, pending: Seq<u32>) -> Seq<char>
    decreases pending.len(),
{
    if pending.len() == 0 {
        Seq::empty()
    } else {
        text_of(markup, pending.last()) + pending_text(markup, pending.drop_last())
    }
}

/// How many nodes stand at and below the nodes of a work list.
spec fn pending_weight(markup: Seq<char>, pending: Seq<u32>) -> nat
    decreases pending.len(),
{
    if pending.len() == 0 {
        0
    } else {
        weight_of(markup, pending.last()) + pending_weight(markup, pending.drop_last())
    }
}

/// Collects the text below `node`. The nodes still to be read wait on a work
/// list; a node that is no text node is replaced there by its children, the
/// first of them on top.
fn collect_text(document: &ParsedDocument<'_>, node: u32) -> (text: String)
    ensures
        text@ == text_of(document@, node),
{
    let mut text = String::new();
    let mut pending: Vec<u32> = Vec::new();
    pending.push(node);
    proof {
        assert(pending@.drop_last() =~= Seq::<u32>::empty());
        assert(pending@.last() == node);
        assert(pending_text(document@, pending@.drop_last()) =~= Seq::<char>::empty());
        assert(pending_text(document@, pending@) =~= text_of(document@, node));
        assert(text@ + pending_text(document@, pending@) =~= text_of(document@, node));
    }
    while pending.len() > 0
        invariant
            text@ + pending_text(document@, pending@) == text_of(document@, node),
        decreases pending_weight(document@, pending@),
    {
        let ghost before = pending@;
        let next = pending.pop().unwrap();
        let ghost rest = pending@;
        proof {
            assert(rest =~= before.drop_last());
            assert(before.last() == next);
        }
        match query_text(document, next) {
            Some(own) => {
                let ghost read = text@;
                text.append(own.as_str());
                assert(text@ + pending_text(document@, rest) =~= read + (own@ + pending_text(
                    document@,
                    rest,
                )));
            },
            None => {
                let children = query_children(document, next);
                let mut left: usize = children.len();
                proof {
                    assert(children@.subrange(left as int, children.len() as int) =~= Seq::<
                        u32,
                    >::empty());
                    assert(pending_text(document@, pending@) =~= Seq::<char>::empty()
                        + pending_text(document@, rest));
                }
                while left > 0
                    invariant
                        left <= children.len(),
                        children@ == markup_children(document@, next),
                        forall|i: int| 0 <= i < children.len() ==> #[trigger] children[i] > next,
                        pending_text(document@, pending@) == texts_of(
                            document@,
                            next,
                            children@.subrange(left as int, children.len() as int),
                        ) + pending_text(document@, rest),
                        pending_weight(document@, pending@) == weights_of(
                            document@,
                            next,
                            children@.subrange(left as int, children.len() as int),
                        ) + pending_weight(document@, rest),
                    decreases left,
                {
                    let ghost waiting = pending@;
                    let ghost tail = children@.subrange(left as int, children.len() as int);
                    left -= 1;
                    let child = children[left];
                    pending.push(child);
                    proof {
                        let longer = children@.subrange(left as int, children.len() as int);
                        assert(longer.drop_first() =~= tail);
                        assert(longer[0] == child);
                        assert(pending@.drop_last() =~= waiting);
                        assert(pending@.last() == child);
                        assert(text_of(document@, child) + (texts_of(document@, next, tail)
                            + pending_text(document@, rest)) =~= (text_of(document@, child)
                            + texts_of(document@, next, tail)) + pending_text(document@, rest));
                    }
                }
                proof {
                    assert(children@.subrange(0, children.len() as int) =~= children@);
                    assert(text@ + (text_of(document@, next) + pending_text(document@, rest))
                        =~= text@ + pending_text(document@, before));
                }
            },
        }
    }
    proof {
        assert(text@ + Seq::<char>::empty() =~= text@);
    }
    text
}

/// The attribute `name` of the first element of `markup` that `selector`
/// matches.
pub open spec fn first_attribute_in(markup: Seq<char>, selector: Seq<char>, name: Seq<char>) -> Option<
    Seq<char>,
> {
    match first_match_in(markup, selector) {
        Some(element) => markup_attribute(markup, element, name),
        None => None,
    }
}

/// The text of the first element of `markup` that `selector` matches.
pub open spec fn first_text_in(markup: Seq<char>, selector: Seq<char>) -> Option<Seq<char>> {
    match first_match_in(markup, selector) {
        Some(element) => text_in(markup, element),
        None => None,
    }
}

impl<'a> ParsedDocument<'a> {
    /// Builds the tree of `markup`. Markup is read leniently, so the one
    /// thing that can fail is its size: `None` means that it has more than
    /// `u32::MAX` bytes.
    pub fn parse(markup: &'a str) -> (document: Option<ParsedDocument<'a>>)
        ensures
            document is Some <==> fits_parser(markup@),
            document matches Some(d) ==> d@ == markup@,
    {
        build_tree(markup)
    }

    /// The first element, in document order, that `selector` matches.
    /// `None` means that nothing matches, or that the selector cannot be
    /// read. A selector of one of the two plain forms, a tag name or
    /// `tag[attr='value']`, is read at any length; one with more than
    /// [`SELECTOR_BREAK_LIMIT`] bytes outside of names is not.
    pub fn first_match(&self, selector: &str) -> (found: Option<ElementHandle>)
        ensures
            match found {
                Some(element) => first_match_in(self@, selector@) == Some(element.index),
                None => first_match_in(self@, selector@) is None,
            },
    {
        if !is_readable(selector) {
            return None;
        }
        match query_first(self, selector) {
            Some(index) => Some(ElementHandle { index }),
            None => None,
        }
    }

    /// The value of the attribute `name` of `element`, or `None` if the
    /// element has no such attribute.
    pub fn attribute(&self, element: ElementHandle, name: &str) -> (value: Option<String>)
        ensures
            value.deep_view() == markup_attribute(self@, element.index, name@),
    {
        query_attribute(self, element.index, name)
    }

    /// The text inside `element`: the text nodes below it, one after another
    /// in document order, with every tag and comment left out. `None` means
    /// that the handle names no element of this document.
    pub fn inner_text(&self, element: ElementHandle) -> (text: Option<String>)
        ensures
            text.deep_view() == text_in(self@, element.index),
    {
        if query_is_element(self, element.index) {
            Some(collect_text(self, element.index))
        } else {
            None
        }
    }
}

/// The attribute `attr` of the first element that `query` matches. Each step
/// may come up empty, and the first that does ends the lookup: no match, or
/// no such attribute on the match.
pub fn attr_from_first_query_match(dom: &ParsedDocument<'_>, query: &str, attr: &str) -> (value:
    Option<String>)
    ensures
        value.deep_view() == first_attribute_in(dom@, query@, attr@),
{
    match dom.first_match(query) {
        Some(element) => dom.attribute(element, attr),
        None => None,
    }
}

} // verus!
