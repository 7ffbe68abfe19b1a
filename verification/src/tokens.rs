//! The token model: one `key[:value]` unit of a search query, the escaping
//! rules applied to values, structural negation, and rendering of a single
//! token or of an ordered collection of tokens into the wire query string.

use vstd::prelude::*;
use vstd::string::StrSliceExecFns;
use vstd::string::StringExecFns;

verus! {

/// What one character of an unescaped value becomes on the wire: `:` and `-`
/// each gain a leading backslash, every other character stands unchanged.
pub open spec fn escaped_char(c: char) -> Seq<char> {
    if c == ':' {
        seq!['\\', ':']
    } else if c == '-' {
        seq!['\\', '-']
    } else {
        seq![c]
    }
}

/// The escape-normal form of a value: each character replaced by
/// [`escaped_char`], in order.
pub open spec fn escape_value(s: Seq<char>) -> Seq<char>
    decreases s.len(),
{
    if s.len() == 0 {
        Seq::empty()
    } else {
        escape_value(s.drop_last()) + escaped_char(s.last())
    }
}

/// The first escaping pass on its own: every `:` replaced by `\:`.
pub open spec fn replace_colons(s: Seq<char>) -> Seq<char>
    decreases s.len(),
{
    if s.len() == 0 {
        Seq::empty()
    } else {
        replace_colons(s.drop_last()) + (if s.last() == ':' {
            seq!['\\', ':']
        } else {
            seq![s.last()]
        })
    }
}

/// The second escaping pass on its own: every `-` replaced by `\-`.
pub open spec fn replace_hyphens(s: Seq<char>) -> Seq<char>
    decreases s.len(),
{
    if s.len() == 0 {
        Seq::empty()
    } else {
        replace_hyphens(s.drop_last()) + (if s.last() == '-' {
            seq!['\\', '-']
        } else {
            seq![s.last()]
        })
    }
}

/// The hyphen pass distributes over concatenation: escaping a string piece
/// by piece and escaping it whole agree.
proof fn lemma_replace_hyphens_concat(a: Seq<char>, b: Seq<char>)
    ensures
        replace_hyphens(a + b) == replace_hyphens(a) + replace_hyphens(b),
    decreases b.len(),
{
    if b.len() == 0 {
        assert(a + b =~= a);
        assert(replace_hyphens(a) + replace_hyphens(b) =~= replace_hyphens(a));
    } else {
        lemma_replace_hyphens_concat(a, b.drop_last());
        assert((a + b).drop_last() =~= a + b.drop_last());
        assert((a + b).last() == b.last());
        assert(replace_hyphens(a + b) =~= replace_hyphens(a) + replace_hyphens(b));
    }
}

/// The escape-normal form is exactly the two-pass description: every `:`
/// replaced by `\:` first, then every remaining `-` replaced by `\-`. The
/// colon pass introduces no hyphens, so the hyphen pass never re-escapes a
/// backslash-colon into a double backslash.
pub proof fn lemma_escape_two_pass(s: Seq<char>)
    ensures
        escape_value(s) == replace_hyphens(replace_colons(s)),
    decreases s.len(),
{
    if s.len() == 0 {
    } else {
        let d = s.drop_last();
        let c = s.last();
        lemma_escape_two_pass(d);
        let m: Seq<char> = if c == ':' {
            seq!['\\', ':']
        } else {
            seq![c]
        };
        lemma_replace_hyphens_concat(replace_colons(d), m);
        assert(replace_hyphens(Seq::<char>::empty()) =~= Seq::<char>::empty());
        if c == ':' {
            assert(seq!['\\'].drop_last() =~= Seq::<char>::empty());
            assert(seq!['\\'].last() == '\\');
            assert(replace_hyphens(seq!['\\']) =~= seq!['\\']);
            assert(m.drop_last() =~= seq!['\\']);
            assert(m.last() == ':');
            assert(replace_hyphens(m) =~= seq!['\\', ':']);
        } else {
            assert(m.drop_last() =~= Seq::<char>::empty());
            assert(m.last() == c);
            if c == '-' {
                assert(replace_hyphens(m) =~= seq!['\\', '-']);
            } else {
                assert(replace_hyphens(m) =~= seq![c]);
            }
        }
        assert(escape_value(s) =~= replace_hyphens(replace_colons(s)));
    }
}

/// A key after negation: a leading `-` is stripped, any other key gains one.
pub open spec fn negated_key(k: Seq<char>) -> Seq<char> {
    if k.len() > 0 && k[0] == '-' {
        k.drop_first()
    } else {
        seq!['-'] + k
    }
}

/// Negation is an involution: toggling a key twice restores it, for every
/// key that does not already begin with two hyphens. (A key such as `--x`
/// loses both hyphens one negation at a time and never regains the second.)
pub proof fn lemma_negate_involutive(k: Seq<char>)
    requires
        !(k.len() >= 2 && k[0] == '-' && k[1] == '-'),
    ensures
        negated_key(negated_key(k)) == k,
{
    if k.len() > 0 && k[0] == '-' {
        let d = k.drop_first();
        assert(seq!['-'] + d =~= k);
    } else {
        assert((seq!['-'] + k).drop_first() =~= k);
    }
}

/// A named token such as `foo:bar`.
pub trait NamedToken {
    /// The fixed wire spelling of this identifier.
    spec fn spelling(&self) -> Seq<char>;

    /// Render the identifier; the result is a function of the identifier
    /// alone, so repeated calls agree.
    fn as_str(&self) -> (s: &'static str)
        ensures
            s@ == self.spelling(),
    ;
}

/// A token used for sorting, as in `sort:random`.
pub trait SortableToken {
    /// The fixed wire spelling of this identifier.
    spec fn spelling(&self) -> Seq<char>;

    /// Render the identifier; the result is a function of the identifier
    /// alone, so repeated calls agree.
    fn as_str(&self) -> (s: &'static str)
        ensures
            s@ == self.spelling(),
    ;
}

/// A special token such as `liked` or `tumbleweed` that fits neither the
/// named nor the sort form.
pub trait SpecialToken {
    /// The fixed wire spelling of this identifier.
    spec fn spelling(&self) -> Seq<char>;

    /// Render the identifier; the result is a function of the identifier
    /// alone, so repeated calls agree.
    fn as_str(&self) -> (s: &'static str)
        ensures
            s@ == self.spelling(),
    ;
}

/// A named identifier's rendered spelling is a pure function of the
/// identifier: any two renderings of one identifier — each equal to its
/// fixed spelling, as `as_str` ensures — are identical.
pub proof fn lemma_named_spelling_stable<T: NamedToken>(t: &T, first: Seq<char>, second: Seq<char>)
    requires
        first == t.spelling(),
        second == t.spelling(),
    ensures
        first == second,
{
}

/// A sort identifier's rendered spelling is a pure function of the
/// identifier, as for named identifiers.
pub proof fn lemma_sort_spelling_stable<T: SortableToken>(
    t: &T,
    first: Seq<char>,
    second: Seq<char>,
)
    requires
        first == t.spelling(),
        second == t.spelling(),
    ensures
        first == second,
{
}

/// A special identifier's rendered spelling is a pure function of the
/// identifier, as for named identifiers.
pub proof fn lemma_special_spelling_stable<T: SpecialToken>(
    t: &T,
    first: Seq<char>,
    second: Seq<char>,
)
    requires
        first == t.spelling(),
        second == t.spelling(),
    ensures
        first == second,
{
}

/// Types that render to a wire query string.
pub trait ToQueryString {
    /// The query string this collection renders to.
    spec fn query_string_spec(&self) -> Seq<char>;

    /// Render `&self` into the wire query string.
    fn to_query_string(&self) -> (s: String)
        ensures
            s@ == self.query_string_spec(),
    ;
}

/// A query token used for searching posts, tags, pools and the like.
pub struct QueryToken {
    /// The key for this token. For `foo:bar` this would be `foo`.
    pub key: String,
    /// The value for this token. For `foo:bar` this would be `bar`.
    pub value: String,
}

impl QueryToken {
    /// The wire form of one token: `key:value` when a value is present,
    /// bare `key` otherwise.
    pub open spec fn render_spec(self) -> Seq<char> {
        if self.value@.len() == 0 {
            self.key@
        } else {
            self.key@ + seq![':'] + self.value@
        }
    }

    /// Construct a named token for a search query. The final result takes
    /// the form `key:value`. Values containing `:` and `-` are automatically
    /// escaped; the key is stored verbatim.
    pub fn token(key: &str, value: &str) -> (t: QueryToken)
        ensures
            t.key@ == key@,
            t.value@ == escape_value(value@),
    {
        QueryToken { key: key.to_owned(), value: escape_str(value) }
    }

    /// Construct a token for sorting purposes. The final result takes the
    /// form `sort:value`; no escaping is applied to the value.
    pub fn sort(value: &str) -> (t: QueryToken)
        ensures
            t.key@ == "sort"@,
            t.value@ == value@,
    {
        QueryToken { key: String::from_str("sort"), value: value.to_owned() }
    }

    /// Construct an anonymous token: a bare key with no value. Keys
    /// containing `:` and `-` are automatically escaped.
    pub fn anonymous(key: &str) -> (t: QueryToken)
        ensures
            t.key@ == escape_value(key@),
            t.value@ =~= Seq::<char>::empty(),
    {
        QueryToken { key: escape_str(key), value: String::new() }
    }

    /// Construct a special token. Only identifiers of the special capability
    /// class are accepted; the construction itself is that of [`Self::anonymous`].
    pub fn special<T: SpecialToken>(key: T) -> (t: QueryToken)
        ensures
            t.key@ == escape_value(key.spelling()),
            t.value@ =~= Seq::<char>::empty(),
    {
        QueryToken::anonymous(key.as_str())
    }

    /// Negate the existing token: include becomes exclude and vice versa.
    /// A leading `-` on the key is stripped, any other key gains one; the
    /// value is left untouched.
    pub fn negate(&self) -> (t: QueryToken)
        ensures
            t.key@ == negated_key(self.key@),
            t.value@ == self.value@,
    {
        let k = self.key.as_str();
        let n = k.unicode_len();
        let negated: String = if n > 0 && k.get_char(0) == '-' {
            let rest = k.substring_char(1, n);
            proof {
                assert(rest@ =~= self.key@.drop_first());
            }
            String::from_str(rest)
        } else {
            let mut out = String::from_str("-");
            out.append(k);
            proof {
                reveal_strlit("-");
                assert("-"@ =~= seq!['-']);
            }
            out
        };
        QueryToken { key: negated, value: self.value.clone() }
    }

    /// Render this token: `key:value` when the value is non-empty, bare
    /// `key` otherwise.
    pub fn to_string(&self) -> (s: String)
        ensures
            s@ == self.render_spec(),
    {
        if self.value.as_str().is_empty() {
            self.key.clone()
        } else {
            let mut out = self.key.clone();
            out.append(":");
            out.append(self.value.as_str());
            proof {
                reveal_strlit(":");
                assert(":"@ =~= seq![':']);
                assert(out@ =~= self.key@ + seq![':'] + self.value@);
            }
            out
        }
    }
}

/// The wire query string of an ordered token sequence: each token rendered,
/// joined by single spaces, order kept, nothing trimmed and nothing dropped.
pub open spec fn query_string_of(tokens: Seq<QueryToken>) -> Seq<char>
    decreases tokens.len(),
{
    if tokens.len() == 0 {
        Seq::empty()
    } else if tokens.len() == 1 {
        tokens[0].render_spec()
    } else {
        query_string_of(tokens.drop_last()) + seq![' '] + tokens.last().render_spec()
    }
}

impl ToQueryString for Vec<QueryToken> {
    open spec fn query_string_spec(&self) -> Seq<char> {
        query_string_of(self@)
    }

    fn to_query_string(&self) -> (s: String) {
        let mut out = String::new();
        let mut i: usize = 0;
        while i < self.len()
            invariant
                i <= self@.len(),
                out@ == query_string_of(self@.take(i as int)),
            decreases self@.len() - i,
        {
            if i > 0 {
                out.append(" ");
            }
            let piece = self[i].to_string();
            out.append(piece.as_str());
            proof {
                reveal_strlit(" ");
                assert(" "@ =~= seq![' ']);
                assert(self@.take(i + 1).drop_last() =~= self@.take(i as int));
                assert(self@.take(i + 1).last() == self@[i as int]);
            }
            i = i + 1;
        }
        proof {
            assert(self@.take(self@.len() as int) =~= self@);
        }
        out
    }
}

/// Escape one string into its wire value form: every `:` becomes `\:`, every
/// `-` becomes `\-`, character order kept.
fn escape_str(s: &str) -> (r: String)
    ensures
        r@ == escape_value(s@),
{
    let n = s.unicode_len();
    let mut out = String::new();
    let mut i: usize = 0;
    while i < n
        invariant
            i <= n,
            n == s@.len(),
            out@ == escape_value(s@.take(i as int)),
        decreases n - i,
    {
        let c = s.get_char(i);
        if c == ':' {
            out.append("\\:");
            proof {
                reveal_strlit("\\:");
                assert("\\:"@ =~= seq!['\\', ':']);
            }
        } else if c == '-' {
            out.append("\\-");
            proof {
                reveal_strlit("\\-");
                assert("\\-"@ =~= seq!['\\', '-']);
            }
        } else {
            let piece = s.substring_char(i, i + 1);
            proof {
                assert(piece@ =~= seq![s@[i as int]]);
            }
            out.append(piece);
        }
        proof {
            assert(s@.take(i + 1).drop_last() =~= s@.take(i as int));
            assert(s@.take(i + 1).last() == s@[i as int]);
        }
        i = i + 1;
    }
    proof {
        assert(s@.take(n as int) =~= s@);
    }
    out
}

} // verus!
