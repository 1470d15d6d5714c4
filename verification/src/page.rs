//! The root page renderer: one pass over the page text that substitutes the
//! four placeholder tokens with the node identity, the caller's process
//! identity, and the embedded script and style texts.
use vstd::prelude::*;
use vstd::string::*;
use crate::text::{
    begins_with, char_free, lemma_char_free_concat, lemma_char_free_excludes, lemma_occurs_at,
    lemma_occurs_in_extension, matches_at, occurs, push_char,
};

verus! {

pub open spec fn token_node() -> Seq<char> {
    seq!['$', '{', 'n', 'o', 'd', 'e', '}']
}

pub open spec fn token_process() -> Seq<char> {
    seq!['$', '{', 'p', 'r', 'o', 'c', 'e', 's', 's', '}']
}

pub open spec fn token_js() -> Seq<char> {
    seq!['$', '{', 'j', 's', '}']
}

pub open spec fn token_css() -> Seq<char> {
    seq!['$', '{', 'c', 's', 's', '}']
}

/// What the renderer produces: the page text with each placeholder token
/// replaced by its value, scanning left to right.
pub open spec fn spec_render(
    s: Seq<char>,
    node: Seq<char>,
    process: Seq<char>,
    js: Seq<char>,
    css: Seq<char>,
) -> Seq<char>
    decreases s.len(),
{
    if s.len() == 0 {
        Seq::empty()
    } else if begins_with(s, token_node()) {
        node + spec_render(s.skip(token_node().len() as int), node, process, js, css)
    } else if begins_with(s, token_process()) {
        process + spec_render(s.skip(token_process().len() as int), node, process, js, css)
    } else if begins_with(s, token_js()) {
        js + spec_render(s.skip(token_js().len() as int), node, process, js, css)
    } else if begins_with(s, token_css()) {
        css + spec_render(s.skip(token_css().len() as int), node, process, js, css)
    } else {
        seq![s[0]] + spec_render(s.skip(1), node, process, js, css)
    }
}

fn token_node_str() -> (r: &'static str)
    ensures
        r@ == token_node(),
{
    proof {
        reveal_strlit("${node}");
        assert("${node}"@ =~= token_node());
    }
    "${node}"
}

fn token_process_str() -> (r: &'static str)
    ensures
        r@ == token_process(),
{
    proof {
        reveal_strlit("${process}");
        assert("${process}"@ =~= token_process());
    }
    "${process}"
}

fn token_js_str() -> (r: &'static str)
    ensures
        r@ == token_js(),
{
    proof {
        reveal_strlit("${js}");
        assert("${js}"@ =~= token_js());
    }
    "${js}"
}

fn token_css_str() -> (r: &'static str)
    ensures
        r@ == token_css(),
{
    proof {
        reveal_strlit("${css}");
        assert("${css}"@ =~= token_css());
    }
    "${css}"
}

/// Renders the page: substitutes the four placeholder tokens in one pass.
pub fn render_page(page: &str, node: &str, process: &str, js: &str, css: &str) -> (r: String)
    ensures
        r@ == spec_render(page@, node@, process@, js@, css@),
{
    let t_node = token_node_str();
    let t_process = token_process_str();
    let t_js = token_js_str();
    let t_css = token_css_str();
    let mut out = String::new();
    let n = page.unicode_len();
    proof {
        assert(page@.skip(0) =~= page@);
    }
    let mut i: usize = 0;
    while i < n
        invariant
            n == page@.len(),
            i <= n,
            t_node@ == token_node(),
            t_process@ == token_process(),
            t_js@ == token_js(),
            t_css@ == token_css(),
            spec_render(page@, node@, process@, js@, css@) == out@ + spec_render(
                page@.skip(i as int),
                node@,
                process@,
                js@,
                css@,
            ),
        decreases n - i,
    {
        if matches_at(page, i, t_node) {
            let tl = t_node.unicode_len();
            out.append(node);
            proof {
                assert(page@.skip(i as int).skip(tl as int) =~= page@.skip(i as int + tl as int));
                assert(out@ + spec_render(page@.skip(i as int + tl as int), node@, process@, js@,
                    css@) =~= spec_render(page@, node@, process@, js@, css@));
            }
            i += tl;
        } else if matches_at(page, i, t_process) {
            let tl = t_process.unicode_len();
            out.append(process);
            proof {
                assert(page@.skip(i as int).skip(tl as int) =~= page@.skip(i as int + tl as int));
                assert(out@ + spec_render(page@.skip(i as int + tl as int), node@, process@, js@,
                    css@) =~= spec_render(page@, node@, process@, js@, css@));
            }
            i += tl;
        } else if matches_at(page, i, t_js) {
            let tl = t_js.unicode_len();
            out.append(js);
            proof {
                assert(page@.skip(i as int).skip(tl as int) =~= page@.skip(i as int + tl as int));
                assert(out@ + spec_render(page@.skip(i as int + tl as int), node@, process@, js@,
                    css@) =~= spec_render(page@, node@, process@, js@, css@));
            }
            i += tl;
        } else if matches_at(page, i, t_css) {
            let tl = t_css.unicode_len();
            out.append(css);
            proof {
                assert(page@.skip(i as int).skip(tl as int) =~= page@.skip(i as int + tl as int));
                assert(out@ + spec_render(page@.skip(i as int + tl as int), node@, process@, js@,
                    css@) =~= spec_render(page@, node@, process@, js@, css@));
            }
            i += tl;
        } else {
            let c = page.get_char(i);
            push_char(&mut out, c);
            proof {
                assert(page@.skip(i as int)[0] == page@[i as int]);
                assert(page@.skip(i as int).skip(1) =~= page@.skip(i as int + 1));
                assert(out@ + spec_render(page@.skip(i as int + 1), node@, process@, js@, css@)
                    =~= spec_render(page@, node@, process@, js@, css@));
            }
            i += 1;
        }
    }
    proof {
        assert(page@.skip(n as int) =~= Seq::<char>::empty());
        assert(out@ =~= spec_render(page@, node@, process@, js@, css@));
    }
    out
}

/// Every `'$'` in the text begins one of the four placeholder tokens.
pub open spec fn placeholders_delimited(s: Seq<char>) -> bool {
    forall|i: int|
        0 <= i < s.len() && #[trigger] s[i] == '$' ==> begins_with(s.skip(i), token_node())
            || begins_with(s.skip(i), token_process()) || begins_with(s.skip(i), token_js())
            || begins_with(s.skip(i), token_css())
}

proof fn lemma_delimited_skip(s: Seq<char>, k: int)
    requires
        placeholders_delimited(s),
        0 <= k <= s.len(),
    ensures
        placeholders_delimited(s.skip(k)),
{
    assert forall|i: int|
        0 <= i < s.skip(k).len() && #[trigger] s.skip(k)[i] == '$' implies begins_with(
        s.skip(k).skip(i),
        token_node(),
    ) || begins_with(s.skip(k).skip(i), token_process()) || begins_with(
        s.skip(k).skip(i),
        token_js(),
    ) || begins_with(s.skip(k).skip(i), token_css()) by {
        assert(s.skip(k)[i] == s[k + i]);
        assert(s.skip(k).skip(i) =~= s.skip(k + i));
    }
}

/// After rendering, no `'$'` is left when the page delimits its placeholders
/// and none of the substituted values contains one.
pub proof fn lemma_render_no_placeholder(
    s: Seq<char>,
    node: Seq<char>,
    process: Seq<char>,
    js: Seq<char>,
    css: Seq<char>,
)
    requires
        placeholders_delimited(s),
        char_free(node, '$'),
        char_free(process, '$'),
        char_free(js, '$'),
        char_free(css, '$'),
    ensures
        char_free(spec_render(s, node, process, js, css), '$'),
    decreases s.len(),
{
    if s.len() == 0 {
    } else if begins_with(s, token_node()) {
        lemma_delimited_skip(s, token_node().len() as int);
        lemma_render_no_placeholder(s.skip(token_node().len() as int), node, process, js, css);
        lemma_char_free_concat(
            node,
            spec_render(s.skip(token_node().len() as int), node, process, js, css),
            '$',
        );
    } else if begins_with(s, token_process()) {
        lemma_delimited_skip(s, token_process().len() as int);
        lemma_render_no_placeholder(s.skip(token_process().len() as int), node, process, js, css);
        lemma_char_free_concat(
            process,
            spec_render(s.skip(token_process().len() as int), node, process, js, css),
            '$',
        );
    } else if begins_with(s, token_js()) {
        lemma_delimited_skip(s, token_js().len() as int);
        lemma_render_no_placeholder(s.skip(token_js().len() as int), node, process, js, css);
        lemma_char_free_concat(
            js,
            spec_render(s.skip(token_js().len() as int), node, process, js, css),
            '$',
        );
    } else if begins_with(s, token_css()) {
        lemma_delimited_skip(s, token_css().len() as int);
        lemma_render_no_placeholder(s.skip(token_css().len() as int), node, process, js, css);
        lemma_char_free_concat(
            css,
            spec_render(s.skip(token_css().len() as int), node, process, js, css),
            '$',
        );
    } else {
        assert(s[0] != '$') by {
            if s[0] == '$' {
                assert(s.skip(0) =~= s);
            }
        }
        lemma_delimited_skip(s, 1);
        lemma_render_no_placeholder(s.skip(1), node, process, js, css);
        lemma_char_free_concat(seq![s[0]], spec_render(s.skip(1), node, process, js, css), '$');
    }
}

/// After rendering, none of the four placeholder tokens occurs in the page.
pub proof fn lemma_render_tokens_gone(
    s: Seq<char>,
    node: Seq<char>,
    process: Seq<char>,
    js: Seq<char>,
    css: Seq<char>,
)
    requires
        placeholders_delimited(s),
        char_free(node, '$'),
        char_free(process, '$'),
        char_free(js, '$'),
        char_free(css, '$'),
    ensures
        !occurs(spec_render(s, node, process, js, css), token_node()),
        !occurs(spec_render(s, node, process, js, css), token_process()),
        !occurs(spec_render(s, node, process, js, css), token_js()),
        !occurs(spec_render(s, node, process, js, css), token_css()),
{
    lemma_render_no_placeholder(s, node, process, js, css);
    let r = spec_render(s, node, process, js, css);
    lemma_char_free_excludes(r, token_node(), '$');
    lemma_char_free_excludes(r, token_process(), '$');
    lemma_char_free_excludes(r, token_js(), '$');
    lemma_char_free_excludes(r, token_css(), '$');
}

/// Where the node token occurs in the page, the node value occurs in the
/// rendered output.
pub proof fn lemma_render_inserts_node(
    s: Seq<char>,
    node: Seq<char>,
    process: Seq<char>,
    js: Seq<char>,
    css: Seq<char>,
)
    requires
        occurs(s, token_node()),
    ensures
        occurs(spec_render(s, node, process, js, css), node),
    decreases s.len(),
{
    let tn = token_node().len() as int;
    let i = choose|i: int|
        0 <= i <= s.len() - token_node().len() && #[trigger] s.subrange(i, i + tn)
            == token_node();
    if begins_with(s, token_node()) {
        let rest = spec_render(s.skip(tn), node, process, js, css);
        assert(spec_render(s, node, process, js, css) == node + rest);
        assert((node + rest).subrange(0, 0 + node.len() as int) =~= node);
        lemma_occurs_at(node + rest, node, 0);
    } else {
        assert(s.subrange(i, i + tn)[0] == s[i]);
        assert(s[i] == '$');
        if begins_with(s, token_process()) {
            let tp = token_process().len() as int;
            assert(i != 0) by {
                if i == 0 {
                    assert(s.subrange(0, tn)[2] == s[2]);
                    assert(s.take(tp)[2] == s[2]);
                }
            }
            assert(i >= tp) by {
                if i < tp {
                    assert(s.take(tp)[i] == s[i]);
                }
            }
            assert(occurs(s.skip(tp), token_node())) by {
                assert(s.skip(tp).subrange(i - tp, i - tp + tn) =~= s.subrange(i, i + tn));
            }
            lemma_render_inserts_node(s.skip(tp), node, process, js, css);
            lemma_occurs_in_extension(
                process,
                spec_render(s.skip(tp), node, process, js, css),
                node,
            );
        } else if begins_with(s, token_js()) {
            let tj = token_js().len() as int;
            assert(i != 0) by {
                if i == 0 {
                    assert(s.subrange(0, tn)[2] == s[2]);
                    assert(s.take(tj)[2] == s[2]);
                }
            }
            assert(i >= tj) by {
                if i < tj {
                    assert(s.take(tj)[i] == s[i]);
                }
            }
            assert(occurs(s.skip(tj), token_node())) by {
                assert(s.skip(tj).subrange(i - tj, i - tj + tn) =~= s.subrange(i, i + tn));
            }
            lemma_render_inserts_node(s.skip(tj), node, process, js, css);
            lemma_occurs_in_extension(js, spec_render(s.skip(tj), node, process, js, css), node);
        } else if begins_with(s, token_css()) {
            let tc = token_css().len() as int;
            assert(i != 0) by {
                if i == 0 {
                    assert(s.subrange(0, tn)[2] == s[2]);
                    assert(s.take(tc)[2] == s[2]);
                }
            }
            assert(i >= tc) by {
                if i < tc {
                    assert(s.take(tc)[i] == s[i]);
                }
            }
            assert(occurs(s.skip(tc), token_node())) by {
                assert(s.skip(tc).subrange(i - tc, i - tc + tn) =~= s.subrange(i, i + tn));
            }
            lemma_render_inserts_node(s.skip(tc), node, process, js, css);
            lemma_occurs_in_extension(css, spec_render(s.skip(tc), node, process, js, css), node);
        } else {
            assert(i >= 1) by {
                if i == 0 {
                    assert(s.take(tn) =~= s.subrange(0, tn));
                }
            }
            assert(occurs(s.skip(1), token_node())) by {
                assert(s.skip(1).subrange(i - 1, i - 1 + tn) =~= s.subrange(i, i + tn));
            }
            lemma_render_inserts_node(s.skip(1), node, process, js, css);
            lemma_occurs_in_extension(
                seq![s[0]],
                spec_render(s.skip(1), node, process, js, css),
                node,
            );
        }
    }
}

/// Where the process token occurs in the page, the process value occurs in
/// the rendered output.
pub proof fn lemma_render_inserts_process(
    s: Seq<char>,
    node: Seq<char>,
    process: Seq<char>,
    js: Seq<char>,
    css: Seq<char>,
)
    requires
        occurs(s, token_process()),
    ensures
        occurs(spec_render(s, node, process, js, css), process),
    decreases s.len(),
{
    let tp = token_process().len() as int;
    let i = choose|i: int|
        0 <= i <= s.len() - token_process().len() && #[trigger] s.subrange(i, i + tp)
            == token_process();
    if begins_with(s, token_node()) {
        let tn = token_node().len() as int;
        assert(s.subrange(i, i + tp)[0] == s[i]);
        assert(s[i] == '$');
        assert(i != 0) by {
            if i == 0 {
                assert(s.subrange(0, tp)[2] == s[2]);
                assert(s.take(tn)[2] == s[2]);
            }
        }
        assert(i >= tn) by {
            if i < tn {
                assert(s.take(tn)[i] == s[i]);
            }
        }
        assert(occurs(s.skip(tn), token_process())) by {
            assert(s.skip(tn).subrange(i - tn, i - tn + tp) =~= s.subrange(i, i + tp));
        }
        lemma_render_inserts_process(s.skip(tn), node, process, js, css);
        lemma_occurs_in_extension(node, spec_render(s.skip(tn), node, process, js, css), process);
    } else if begins_with(s, token_process()) {
        let rest = spec_render(s.skip(tp), node, process, js, css);
        assert(spec_render(s, node, process, js, css) == process + rest);
        assert((process + rest).subrange(0, 0 + process.len() as int) =~= process);
        lemma_occurs_at(process + rest, process, 0);
    } else {
        assert(s.subrange(i, i + tp)[0] == s[i]);
        assert(s[i] == '$');
        if begins_with(s, token_js()) {
            let tj = token_js().len() as int;
            assert(i != 0) by {
                if i == 0 {
                    assert(s.subrange(0, tp)[2] == s[2]);
                    assert(s.take(tj)[2] == s[2]);
                }
            }
            assert(i >= tj) by {
                if i < tj {
                    assert(s.take(tj)[i] == s[i]);
                }
            }
            assert(occurs(s.skip(tj), token_process())) by {
                assert(s.skip(tj).subrange(i - tj, i - tj + tp) =~= s.subrange(i, i + tp));
            }
            lemma_render_inserts_process(s.skip(tj), node, process, js, css);
            lemma_occurs_in_extension(js, spec_render(s.skip(tj), node, process, js, css), process);
        } else if begins_with(s, token_css()) {
            let tc = token_css().len() as int;
            assert(i != 0) by {
                if i == 0 {
                    assert(s.subrange(0, tp)[2] == s[2]);
                    assert(s.take(tc)[2] == s[2]);
                }
            }
            assert(i >= tc) by {
                if i < tc {
                    assert(s.take(tc)[i] == s[i]);
                }
            }
            assert(occurs(s.skip(tc), token_process())) by {
                assert(s.skip(tc).subrange(i - tc, i - tc + tp) =~= s.subrange(i, i + tp));
            }
            lemma_render_inserts_process(s.skip(tc), node, process, js, css);
            lemma_occurs_in_extension(
                css,
                spec_render(s.skip(tc), node, process, js, css),
                process,
            );
        } else {
            assert(i >= 1) by {
                if i == 0 {
                    assert(s.take(tp) =~= s.subrange(0, tp));
                }
            }
            assert(occurs(s.skip(1), token_process())) by {
                assert(s.skip(1).subrange(i - 1, i - 1 + tp) =~= s.subrange(i, i + tp));
            }
            lemma_render_inserts_process(s.skip(1), node, process, js, css);
            lemma_occurs_in_extension(
                seq![s[0]],
                spec_render(s.skip(1), node, process, js, css),
                process,
            );
        }
    }
}

/// The rendered root page carries the caller's node and process identities
/// and no placeholder token survives, whenever the page delimits its
/// placeholders and the substituted values contain no `'$'`.
pub proof fn lemma_root_page_rendering(
    s: Seq<char>,
    node: Seq<char>,
    process: Seq<char>,
    js: Seq<char>,
    css: Seq<char>,
)
    requires
        placeholders_delimited(s),
        char_free(node, '$'),
        char_free(process, '$'),
        char_free(js, '$'),
        char_free(css, '$'),
        occurs(s, token_node()),
        occurs(s, token_process()),
    ensures
        occurs(spec_render(s, node, process, js, css), node),
        occurs(spec_render(s, node, process, js, css), process),
        !occurs(spec_render(s, node, process, js, css), token_node()),
        !occurs(spec_render(s, node, process, js, css), token_process()),
        !occurs(spec_render(s, node, process, js, css), token_js()),
        !occurs(spec_render(s, node, process, js, css), token_css()),
{
    lemma_render_inserts_node(s, node, process, js, css);
    lemma_render_inserts_process(s, node, process, js, css);
    lemma_render_tokens_gone(s, node, process, js, css);
}

} // verus!
