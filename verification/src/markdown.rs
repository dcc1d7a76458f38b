//! The little Markdown that a message may hold: `**bold**` and `` `code` ``,
//! shown in colours or stripped of their marks.

use crate::colors::{BOLD, CYAN, RESET, WHITE};
use crate::interaction::InteractionTool;
use crate::text::{find_from, from_chars, occurs_at, to_chars};
use vstd::prelude::*;

verus! {

/// `i` is the first index from `from` on at which `mark` stands in `s`.
pub open spec fn first_from(s: Seq<char>, mark: Seq<char>, from: int, i: int) -> bool {
    &&& from <= i
    &&& occurs_at(s, mark, i)
    &&& forall|j: int| from <= j < i ==> !occurs_at(s, mark, j)
}

/// The first index from `from` on at which `mark` stands in `s`.
pub open spec fn first_index(s: Seq<char>, mark: Seq<char>, from: int) -> Option<int> {
    if exists|i: int| first_from(s, mark, from, i) {
        Some(choose|i: int| first_from(s, mark, from, i))
    } else {
        None
    }
}

/// The first stretch of `s` between two marks, as the indices of the two
/// marks.
pub open spec fn first_pair(s: Seq<char>, mark: Seq<char>) -> Option<(int, int)> {
    match first_index(s, mark, 0) {
        None => None,
        Some(i) => match first_index(s, mark, i + mark.len()) {
            None => None,
            Some(j) => Some((i, j)),
        },
    }
}

/// `s` with the stretch between the marks at `i` and `j` put between `open`
/// and `close`, and the two marks gone.
pub open spec fn restyled(
    s: Seq<char>,
    mark: Seq<char>,
    open: Seq<char>,
    close: Seq<char>,
    i: int,
    j: int,
) -> Seq<char> {
    s.take(i) + open + s.subrange(i + mark.len(), j) + close + s.skip(j + mark.len())
}

/// `s` after the first stretch between two marks was restyled, and then the
/// first of the result, and so on, `steps` times at most; a text without such
/// a stretch stays as it is.
pub open spec fn styled(
    s: Seq<char>,
    mark: Seq<char>,
    open: Seq<char>,
    close: Seq<char>,
    steps: nat,
) -> Seq<char>
    decreases steps,
{
    if steps == 0 {
        s
    } else {
        match first_pair(s, mark) {
            None => s,
            Some((i, j)) => styled(
                restyled(s, mark, open, close, i, j),
                mark,
                open,
                close,
                (steps - 1) as nat,
            ),
        }
    }
}

/// `s` with every stretch between two marks restyled, one after the other
/// from the left; the steps are as many as `s` has characters, which is more
/// than it has stretches.
pub open spec fn all_styled(s: Seq<char>, mark: Seq<char>, open: Seq<char>, close: Seq<char>)
    -> Seq<char> {
    styled(s, mark, open, close, s.len())
}

/// What opens bold text where colours are shown.
pub open spec fn bold_open(colors_shown: bool) -> Seq<char> {
    if colors_shown {
        BOLD@ + WHITE@
    } else {
        Seq::empty()
    }
}

/// What opens code where colours are shown.
pub open spec fn code_open(colors_shown: bool) -> Seq<char> {
    if colors_shown {
        CYAN@
    } else {
        Seq::empty()
    }
}

/// What closes a stretch where colours are shown.
pub open spec fn style_close(colors_shown: bool) -> Seq<char> {
    if colors_shown {
        RESET@
    } else {
        Seq::empty()
    }
}

/// A message with its bold text and its code in colours, where colours are
/// shown, and without the marks.
pub open spec fn rendered_markdown(text: Seq<char>, colors_shown: bool) -> Seq<char> {
    all_styled(
        all_styled(text, "**"@, bold_open(colors_shown), style_close(colors_shown)),
        "`"@,
        code_open(colors_shown),
        style_close(colors_shown),
    )
}

proof fn lemma_first_index(s: Seq<char>, mark: Seq<char>, from: int, i: int)
    requires
        first_from(s, mark, from, i),
    ensures
        first_index(s, mark, from) == Some(i),
{
    let chosen = choose|k: int| first_from(s, mark, from, k);
    assert(first_from(s, mark, from, chosen));
    if chosen < i {
        assert(!occurs_at(s, mark, chosen));
    } else if i < chosen {
        assert(!occurs_at(s, mark, i));
    }
}

proof fn lemma_no_index(s: Seq<char>, mark: Seq<char>, from: int)
    requires
        forall|j: int| from <= j ==> !occurs_at(s, mark, j),
    ensures
        first_index(s, mark, from) is None,
{
    if exists|i: int| first_from(s, mark, from, i) {
        let i = choose|i: int| first_from(s, mark, from, i);
        assert(occurs_at(s, mark, i));
    }
}

fn find_pair(v: &Vec<char>, mark: &Vec<char>) -> (r: Option<(usize, usize)>)
    ensures
        match r {
            Some((i, j)) => first_pair(v@, mark@) == Some((i as int, j as int)) && i + mark.len()
                <= j && j + mark.len() <= v.len(),
            None => first_pair(v@, mark@) is None,
        },
{
    match find_from(v, mark, 0) {
        None => {
            proof {
                lemma_no_index(v@, mark@, 0);
            }
            None
        },
        Some(i) => {
            proof {
                lemma_first_index(v@, mark@, 0, i as int);
                assert(occurs_at(v@, mark@, i as int));
            }
            assert(i + mark.len() <= v.len());
            match find_from(v, mark, i + mark.len()) {
                None => {
                    proof {
                        lemma_no_index(v@, mark@, i + mark.len());
                    }
                    None
                },
                Some(j) => {
                    proof {
                        lemma_first_index(v@, mark@, i + mark.len(), j as int);
                    }
                    Some((i, j))
                },
            }
        },
    }
}

/// Restyles every stretch of `text` between two marks.
pub fn restyle(text: &str, mark: &str, open: &str, close: &str) -> (r: String)
    ensures
        r@ == all_styled(text@, mark@, open@, close@),
{
    let m = to_chars(mark);
    let mut v = to_chars(text);
    let mut steps: usize = v.len();
    while steps > 0
        invariant
            m@ == mark@,
            all_styled(text@, mark@, open@, close@) == styled(
                v@,
                mark@,
                open@,
                close@,
                steps as nat,
            ),
        decreases steps,
    {
        match find_pair(&v, &m) {
            None => {
                assert(v@.subrange(0, v.len() as int) =~= v@);
                return from_chars(&v, 0, v.len());
            },
            Some((i, j)) => {
                let mut next = from_chars(&v, 0, i);
                next.append(open);
                next.append(from_chars(&v, i + m.len(), j).as_str());
                next.append(close);
                next.append(from_chars(&v, j + m.len(), v.len()).as_str());
                assert(next@ =~= restyled(v@, mark@, open@, close@, i as int, j as int));
                v = to_chars(next.as_str());
                steps -= 1;
            },
        }
    }
    assert(v@.subrange(0, v.len() as int) =~= v@);
    from_chars(&v, 0, v.len())
}

impl InteractionTool {
    /// A message with its bold text and its code in colours, where colours
    /// are shown.
    pub fn render_simple_markdown(text: &str, colors_shown: bool) -> (r: String)
        ensures
            r@ == rendered_markdown(text@, colors_shown),
    {
        if colors_shown {
            let mut bold = BOLD.to_string();
            bold.append(WHITE);
            let first = restyle(text, "**", bold.as_str(), RESET);
            restyle(first.as_str(), "`", CYAN, RESET)
        } else {
            proof {
                reveal_strlit("");
                assert(""@ =~= Seq::<char>::empty());
            }
            let first = restyle(text, "**", "", "");
            restyle(first.as_str(), "`", "", "")
        }
    }

    /// A message without the marks of its bold text and its code.
    pub fn render_simple_markdown_plain(text: &str) -> (r: String)
        ensures
            r@ == rendered_markdown(text@, false),
    {
        InteractionTool::render_simple_markdown(text, false)
    }
}

} // verus!
