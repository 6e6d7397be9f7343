//! From the rendered tokens of a public item to its name and its signature.

use vstd::prelude::*;
use vstd::string::StringExecFns;
use crate::api::{ApiItem, ItemModel};

verus! {

/// What a token of a rendered item is.
#[derive(Debug, Clone, Copy, PartialEq, Eq, Structural)]
pub enum TokenKind {
    /// A symbol, like `=` or `::<`.
    Symbol,
    /// A qualifier, like `pub` or `const`.
    Qualifier,
    /// The kind of an item, like `fn` or `trait`.
    Kind,
    /// A single blank.
    Whitespace,
    /// An identifier, like a variable name or a part of the path of an item.
    Identifier,
    /// An annotation, such as an attribute.
    Annotation,
    /// The identifier `self` or `Self`.
    SelfName,
    /// The name of a function.
    Function,
    /// A lifetime, with its apostrophe.
    Lifetime,
    /// A keyword, like `impl`, `where` or `dyn`.
    Keyword,
    /// A generic parameter.
    Generic,
    /// A primitive type.
    Primitive,
    /// A type that is not primitive.
    Type,
}

/// One token of a rendered item.
#[derive(Debug, Clone, PartialEq, Eq)]
pub struct SignatureToken {
    /// What the token is.
    pub kind: TokenKind,
    /// The text of the token.
    pub text: String,
}

/// Whether a token of this kind may stand before the path of an item.
pub open spec fn is_lead(kind: TokenKind) -> bool {
    kind == TokenKind::Qualifier || kind == TokenKind::Kind || kind == TokenKind::Whitespace
        || kind == TokenKind::Annotation
}

/// Whether a token of this kind is a part of a path.
pub open spec fn is_path_part(kind: TokenKind) -> bool {
    kind == TokenKind::Identifier || kind == TokenKind::Function || kind == TokenKind::Type
}

/// Whether `token` separates two parts of a path.
pub open spec fn is_separator(token: SignatureToken) -> bool {
    token.kind == TokenKind::Symbol && token.text@ == "::"@
}

/// Whether the path of the item starts at token `start`: a part of a path
/// with nothing before it but qualifiers, the kind, annotations and blanks.
pub open spec fn path_starts(tokens: Seq<SignatureToken>, start: int) -> bool {
    &&& 0 <= start < tokens.len()
    &&& is_path_part(tokens[start].kind)
    &&& forall|k: int| 0 <= k < start ==> is_lead((#[trigger] tokens[k]).kind)
}

/// Whether the item has no path: what follows its leading tokens, if
/// anything, is no part of a path. An implementation block is such an item.
pub open spec fn is_pathless(tokens: Seq<SignatureToken>) -> bool {
    forall|start: int| !path_starts(tokens, start)
}

/// Whether the token that is `i` parts behind token `start` is a part of a
/// path.
pub open spec fn part_at(tokens: Seq<SignatureToken>, start: int, i: int) -> bool {
    start + 2 * i < tokens.len() && is_path_part(tokens[start + 2 * i].kind)
}

/// Whether the token behind that part is a separator.
pub open spec fn separator_at(tokens: Seq<SignatureToken>, start: int, i: int) -> bool {
    start + 2 * i + 1 < tokens.len() && is_separator(tokens[start + 2 * i + 1])
}

/// Whether the path that starts at token `start` has `count` separators:
/// parts and separators alternate, and behind the last part comes no
/// separator with a part behind it.
pub open spec fn path_spans(tokens: Seq<SignatureToken>, start: int, count: int) -> bool {
    &&& 0 <= count
    &&& forall|i: int| 0 <= i <= count ==> #[trigger] part_at(tokens, start, i)
    &&& forall|i: int| 0 <= i < count ==> #[trigger] separator_at(tokens, start, i)
    &&& !(separator_at(tokens, start, count) && part_at(tokens, start, count + 1))
}

/// A path has one number of separators.
pub proof fn path_span_is_unique(tokens: Seq<SignatureToken>, start: int, a: int, b: int)
    requires
        path_spans(tokens, start, a),
        path_spans(tokens, start, b),
    ensures
        a == b,
{
    if a < b {
        assert(separator_at(tokens, start, a));
        assert(part_at(tokens, start, a + 1));
    } else if b < a {
        assert(separator_at(tokens, start, b));
        assert(part_at(tokens, start, b + 1));
    }
}

/// An item has one place where its path starts.
pub proof fn path_start_is_unique(tokens: Seq<SignatureToken>, a: int, b: int)
    requires
        path_starts(tokens, a),
        path_starts(tokens, b),
    ensures
        a == b,
{
    if a < b {
        assert(is_lead(tokens[a].kind));
    } else if b < a {
        assert(is_lead(tokens[b].kind));
    }
}

/// The texts of `tokens`, one after the other.
pub open spec fn rendered(tokens: Seq<SignatureToken>) -> Seq<char>
    decreases tokens.len(),
{
    if tokens.len() == 0 {
        Seq::empty()
    } else {
        rendered(tokens.drop_last()) + tokens.last().text@
    }
}

/// Whether `item` is the item that `tokens` render: its signature is their
/// text, and its name is the text of its path, or the whole signature where
/// it has no path.
pub open spec fn is_item_of(item: ItemModel, tokens: Seq<SignatureToken>) -> bool {
    &&& item.signature == rendered(tokens)
    &&& is_pathless(tokens) ==> item.name == rendered(tokens)
    &&& forall|start: int, count: int|
        path_starts(tokens, start) && path_spans(tokens, start, count) ==> item.name == rendered(
            tokens.subrange(start, start + 2 * count + 1),
        )
}

/// The text of the tokens `from..to`.
fn render(tokens: &Vec<SignatureToken>, from: usize, to: usize) -> (text: String)
    requires
        from <= to <= tokens@.len(),
    ensures
        text@ == rendered(tokens@.subrange(from as int, to as int)),
{
    let mut text = String::new();
    let mut k: usize = from;
    assert(tokens@.subrange(from as int, from as int) =~= Seq::<SignatureToken>::empty());
    while k < to
        invariant
            from <= k <= to <= tokens@.len(),
            text@ == rendered(tokens@.subrange(from as int, k as int)),
        decreases to - k,
    {
        proof {
            let longer = tokens@.subrange(from as int, k + 1);
            assert(longer.drop_last() =~= tokens@.subrange(from as int, k as int));
            assert(longer.last() == tokens@[k as int]);
        }
        text.append(tokens[k].text.as_str());
        k += 1;
    }
    text
}

/// Whether a token of this kind may stand before the path of an item.
fn kind_is_lead(kind: TokenKind) -> (yes: bool)
    ensures
        yes == is_lead(kind),
{
    match kind {
        TokenKind::Qualifier | TokenKind::Kind | TokenKind::Whitespace | TokenKind::Annotation => true,
        _ => false,
    }
}

/// Whether a token of this kind is a part of a path.
fn kind_is_path_part(kind: TokenKind) -> (yes: bool)
    ensures
        yes == is_path_part(kind),
{
    match kind {
        TokenKind::Identifier | TokenKind::Function | TokenKind::Type => true,
        _ => false,
    }
}

/// Whether `token` separates two parts of a path.
fn token_is_separator(token: &SignatureToken) -> (yes: bool)
    ensures
        yes == is_separator(*token),
{
    match token.kind {
        TokenKind::Symbol => crate::text::text_eq(token.text.as_str(), "::"),
        _ => false,
    }
}

/// The item that `tokens` render.
///
/// The signature is the text of all tokens. The name is the path of the
/// item: the parts, with their separators, that follow the qualifiers, the
/// kind and the annotations. An item without a path, such as an
/// implementation block, is named by its whole signature.
pub fn item_from_tokens(tokens: &Vec<SignatureToken>) -> (item: ApiItem)
    ensures
        is_item_of(item@, tokens@),
{
    let n = tokens.len();
    assert(tokens@.subrange(0, n as int) =~= tokens@);
    let signature = render(tokens, 0, n);
    let mut start: usize = 0;
    while start < n && kind_is_lead(tokens[start].kind)
        invariant
            n == tokens@.len(),
            start <= n,
            forall|k: int| 0 <= k < start ==> is_lead((#[trigger] tokens@[k]).kind),
        decreases n - start,
    {
        start += 1;
    }
    if start == n || !kind_is_path_part(tokens[start].kind) {
        proof {
            assert forall|s: int| !path_starts(tokens@, s) by {
                if path_starts(tokens@, s) {
                    if s < start {
                        assert(is_lead(tokens@[s].kind));
                    } else if s > start {
                        assert(is_lead(tokens@[start as int].kind));
                    }
                }
            }
        }
        let name = render(tokens, 0, n);
        return ApiItem { name, signature };
    }
    let mut end: usize = start + 1;
    let ghost mut count: int = 0;
    while end < n && n - end > 1 && token_is_separator(&tokens[end]) && kind_is_path_part(
        tokens[end + 1].kind,
    )
        invariant
            n == tokens@.len(),
            start < end <= n,
            0 <= count,
            end == start + 2 * count + 1,
            forall|i: int| 0 <= i <= count ==> #[trigger] part_at(tokens@, start as int, i),
            forall|i: int| 0 <= i < count ==> #[trigger] separator_at(tokens@, start as int, i),
        decreases n - end,
    {
        proof {
            let next = count + 1;
            assert forall|i: int| 0 <= i <= next implies #[trigger] part_at(
                tokens@,
                start as int,
                i,
            ) by {
                if i == next {
                    assert(start + 2 * i == end + 1);
                }
            }
            assert forall|i: int| 0 <= i < next implies #[trigger] separator_at(
                tokens@,
                start as int,
                i,
            ) by {
                if i == count {
                    assert(start + 2 * i + 1 == end);
                }
            }
            count = next;
        }
        end += 2;
    }
    let name = render(tokens, start, end);
    proof {
        assert(path_starts(tokens@, start as int));
        assert(path_spans(tokens@, start as int, count)) by {
            if separator_at(tokens@, start as int, count) && part_at(
                tokens@,
                start as int,
                count + 1,
            ) {
                assert(start + 2 * count + 1 == end);
                assert(start + 2 * (count + 1) == end + 1);
            }
        }
        assert forall|s: int, c: int|
            path_starts(tokens@, s) && path_spans(tokens@, s, c) implies name@ == rendered(
            tokens@.subrange(s, s + 2 * c + 1),
        ) by {
            path_start_is_unique(tokens@, s, start as int);
            path_span_is_unique(tokens@, start as int, c, count);
        }
    }
    ApiItem { name, signature }
}

} // verus!
