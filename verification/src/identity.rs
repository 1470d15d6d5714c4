//! Addresses of message endpoints: a node name and a process identifier in
//! the fixed three-part `name:package:publisher` form. Source classification
//! compares the textual form, so its exact shape matters.
use vstd::prelude::*;
use vstd::string::*;
use crate::text::{char_free, push_char, str_eq};

verus! {

/// A process identifier: three parts joined by `:` in the textual form.
pub struct ProcessId {
    pub name: String,
    pub package: String,
    pub publisher: String,
}

/// An addressable message endpoint: a process on a node.
pub struct Address {
    pub node: String,
    pub process: ProcessId,
}

impl ProcessId {
    /// The textual form `name:package:publisher`.
    pub open spec fn text(self) -> Seq<char> {
        self.name@ + seq![':'] + self.package@ + seq![':'] + self.publisher@
    }

    /// Well-formed: no part contains the separator, so the textual form
    /// determines the parts.
    pub open spec fn wf(self) -> bool {
        char_free(self.name@, ':') && char_free(self.package@, ':') && char_free(
            self.publisher@,
            ':',
        )
    }

    /// Renders the identifier in its textual form.
    pub fn to_text(&self) -> (r: String)
        ensures
            r@ == self.text(),
    {
        let mut out = String::from_str(self.name.as_str());
        push_char(&mut out, ':');
        out.append(self.package.as_str());
        push_char(&mut out, ':');
        out.append(self.publisher.as_str());
        out
    }

    /// Field-for-field equality of two identifiers.
    pub fn same_id(&self, other: &ProcessId) -> (r: bool)
        ensures
            r == (self.name@ == other.name@ && self.package@ == other.package@
                && self.publisher@ == other.publisher@),
    {
        self.name == other.name && self.package == other.package && self.publisher
            == other.publisher
    }
}

/// How many separators a text contains.
pub open spec fn colon_count(s: Seq<char>) -> nat
    decreases s.len(),
{
    if s.len() == 0 {
        0
    } else {
        (if s[0] == ':' {
            1nat
        } else {
            0nat
        }) + colon_count(s.skip(1))
    }
}

proof fn lemma_colon_count_concat(a: Seq<char>, b: Seq<char>)
    ensures
        colon_count(a + b) == colon_count(a) + colon_count(b),
    decreases a.len(),
{
    if a.len() == 0 {
        assert(a + b =~= b);
    } else {
        assert((a + b)[0] == a[0]);
        assert((a + b).skip(1) =~= a.skip(1) + b);
        lemma_colon_count_concat(a.skip(1), b);
    }
}

proof fn lemma_char_free_no_colon(s: Seq<char>)
    requires
        char_free(s, ':'),
    ensures
        colon_count(s) == 0,
    decreases s.len(),
{
    if s.len() > 0 {
        lemma_char_free_no_colon(s.skip(1));
    }
}

/// A well-formed identifier's text has exactly the two separators.
pub proof fn lemma_wf_text_colon_count(p: ProcessId)
    requires
        p.wf(),
    ensures
        colon_count(p.text()) == 2,
{
    lemma_char_free_no_colon(p.name@);
    lemma_char_free_no_colon(p.package@);
    lemma_char_free_no_colon(p.publisher@);
    lemma_colon_count_concat(p.name@, seq![':']);
    lemma_colon_count_concat(p.name@ + seq![':'], p.package@);
    lemma_colon_count_concat(p.name@ + seq![':'] + p.package@, seq![':']);
    lemma_colon_count_concat(p.name@ + seq![':'] + p.package@ + seq![':'], p.publisher@);
    assert(colon_count(seq![':']) == 1) by {
        assert(colon_count(Seq::<char>::empty()) == 0);
        assert(seq![':'].skip(1) =~= Seq::<char>::empty());
    }
}

proof fn lemma_split_at_colon(x1: Seq<char>, y1: Seq<char>, x2: Seq<char>, y2: Seq<char>)
    requires
        char_free(x1, ':'),
        char_free(x2, ':'),
        x1 + seq![':'] + y1 == x2 + seq![':'] + y2,
    ensures
        x1 == x2,
        y1 == y2,
{
    let s = x1 + seq![':'] + y1;
    let s2 = x2 + seq![':'] + y2;
    if x1.len() < x2.len() {
        assert(s[x1.len() as int] == ':');
        assert(s2[x1.len() as int] == x2[x1.len() as int]);
        assert(false);
    }
    if x2.len() < x1.len() {
        assert(s2[x2.len() as int] == ':');
        assert(s[x2.len() as int] == x1[x2.len() as int]);
        assert(false);
    }
    assert(s.len() == x1.len() + 1 + y1.len());
    assert(s2.len() == x2.len() + 1 + y2.len());
    assert(y1.len() == y2.len());
    assert forall|i: int| 0 <= i < x1.len() implies x1[i] == x2[i] by {
        assert(s[i] == x1[i]);
        assert(s2[i] == x2[i]);
    }
    assert(x1 =~= x2);
    assert forall|i: int| 0 <= i < y1.len() implies y1[i] == y2[i] by {
        assert(s[x1.len() + 1 + i] == y1[i]);
        assert(s2[x2.len() + 1 + i] == y2[i]);
    }
    assert(y1 =~= y2);
}

/// On well-formed identifiers the textual form is injective: string equality
/// of the texts is equality of the parts.
pub proof fn lemma_text_injective(a: ProcessId, b: ProcessId)
    requires
        a.wf(),
        b.wf(),
        a.text() == b.text(),
    ensures
        a.name@ == b.name@,
        a.package@ == b.package@,
        a.publisher@ == b.publisher@,
{
    assert(a.name@ + seq![':'] + (a.package@ + seq![':'] + a.publisher@) =~= a.text());
    assert(b.name@ + seq![':'] + (b.package@ + seq![':'] + b.publisher@) =~= b.text());
    lemma_split_at_colon(
        a.name@,
        a.package@ + seq![':'] + a.publisher@,
        b.name@,
        b.package@ + seq![':'] + b.publisher@,
    );
    lemma_split_at_colon(a.package@, a.publisher@, b.package@, b.publisher@);
}

/// Parses the textual form back into an identifier: it succeeds exactly on
/// texts with two separators, and returns the three parts between them.
pub fn from_text(s: &str) -> (r: Option<ProcessId>)
    ensures
        r is Some <==> colon_count(s@) == 2,
        r matches Some(p) ==> p.wf() && p.text() == s@,
{
    let mut name = String::new();
    let mut package = String::new();
    let mut publisher = String::new();
    let mut part: usize = 0;
    let n = s.unicode_len();
    proof {
        assert(s@.take(0) =~= Seq::<char>::empty());
    }
    let mut i: usize = 0;
    while i < n
        invariant
            n == s@.len(),
            i <= n,
            part <= 2,
            char_free(name@, ':'),
            char_free(package@, ':'),
            char_free(publisher@, ':'),
            part == colon_count(s@.take(i as int)),
            part == 0 ==> s@.take(i as int) == name@ && package@ == Seq::<char>::empty()
                && publisher@ == Seq::<char>::empty(),
            part == 1 ==> s@.take(i as int) == name@ + seq![':'] + package@ && publisher@
                == Seq::<char>::empty(),
            part == 2 ==> s@.take(i as int) == name@ + seq![':'] + package@ + seq![':']
                + publisher@,
        decreases n - i,
    {
        let c = s.get_char(i);
        proof {
            assert(s@.take(i as int + 1) =~= s@.take(i as int) + seq![s@[i as int]]);
            lemma_colon_count_concat(s@.take(i as int), seq![s@[i as int]]);
            assert(colon_count(seq![s@[i as int]]) == (if s@[i as int] == ':' {
                1nat
            } else {
                0nat
            })) by {
                assert(colon_count(Seq::<char>::empty()) == 0);
                assert(seq![s@[i as int]].skip(1) =~= Seq::<char>::empty());
            }
        }
        if c == ':' {
            if part == 2 {
                proof {
                    assert(s@ =~= s@.take(i as int + 1) + s@.skip(i as int + 1));
                    lemma_colon_count_concat(s@.take(i as int + 1), s@.skip(i as int + 1));
                }
                return None;
            }
            part += 1;
            proof {
                if part == 1 {
                    assert(s@.take(i as int + 1) =~= name@ + seq![':'] + package@);
                } else {
                    assert(s@.take(i as int + 1) =~= name@ + seq![':'] + package@ + seq![':']
                        + publisher@);
                }
            }
        } else {
            if part == 0 {
                push_char(&mut name, c);
            } else if part == 1 {
                push_char(&mut package, c);
                proof {
                    assert(s@.take(i as int + 1) =~= name@ + seq![':'] + package@);
                }
            } else {
                push_char(&mut publisher, c);
                proof {
                    assert(s@.take(i as int + 1) =~= name@ + seq![':'] + package@ + seq![':']
                        + publisher@);
                }
            }
        }
        i += 1;
    }
    proof {
        assert(s@.take(n as int) =~= s@);
    }
    if part == 2 {
        Some(ProcessId { name, package, publisher })
    } else {
        None
    }
}

/// The well-known registrar identity in textual form.
pub open spec fn registrar_text() -> Seq<char> {
    "http_bindings"@ + seq![':'] + "http_bindings"@ + seq![':'] + "uqbar"@
}

/// This process's own peer-to-peer identity in textual form.
pub open spec fn self_text() -> Seq<char> {
    "librarian"@ + seq![':'] + "librarian"@ + seq![':'] + "uqbar"@
}

/// The HTTP client capability's identity in textual form.
pub open spec fn http_client_text() -> Seq<char> {
    "http_client"@ + seq![':'] + "sys"@ + seq![':'] + "uqbar"@
}

/// The well-known registrar identity.
pub fn registrar_id() -> (r: ProcessId)
    ensures
        r.text() == registrar_text(),
{
    ProcessId {
        name: String::from_str("http_bindings"),
        package: String::from_str("http_bindings"),
        publisher: String::from_str("uqbar"),
    }
}

/// This process's own peer-to-peer identity.
pub fn self_id() -> (r: ProcessId)
    ensures
        r.text() == self_text(),
{
    ProcessId {
        name: String::from_str("librarian"),
        package: String::from_str("librarian"),
        publisher: String::from_str("uqbar"),
    }
}

/// The HTTP client capability's identity.
pub fn http_client_id() -> (r: ProcessId)
    ensures
        r.text() == http_client_text(),
{
    ProcessId {
        name: String::from_str("http_client"),
        package: String::from_str("sys"),
        publisher: String::from_str("uqbar"),
    }
}

/// Whether this identifier renders to the same text as `other`.
pub fn same_text(a: &ProcessId, b: &ProcessId) -> (r: bool)
    ensures
        r == (a.text() == b.text()),
{
    let at = a.to_text();
    let bt = b.to_text();
    str_eq(at.as_str(), bt.as_str())
}

} // verus!
