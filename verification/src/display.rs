//! The text of a type definition.

use vstd::prelude::*;
use crate::qualified_name::{join_strings, joined, texts};

verus! {

/// The text of one line: its tokens, one after the other.
pub open spec fn line_text(tokens: Seq<String>) -> Seq<char> {
    joined(texts(tokens), Seq::<char>::empty())
}

/// The text of each line of `lines`, in order.
pub open spec fn line_texts(lines: Seq<Vec<String>>) -> Seq<Seq<char>> {
    Seq::new(lines.len(), |i: int| line_text(lines[i]@))
}

/// The text of a definition given as lines of tokens: each line's tokens one
/// after the other, and a line feed between two lines.
pub open spec fn definition_text(lines: Seq<Vec<String>>) -> Seq<char> {
    joined(line_texts(lines), seq!['\n'])
}

/// The text of a type definition that was rendered as lines of tokens. Where
/// no rendering could be had there is no text, and the caller shows that
/// instead of failing.
pub fn type_definition_text(lines: Option<&Vec<Vec<String>>>) -> (r: Result<String, ()>)
    ensures
        match lines {
            Some(l) => r is Ok && r.unwrap()@ == definition_text(l@),
            None => r is Err,
        },
{
    let lines = match lines {
        Some(l) => l,
        None => {
            return Err(());
        },
    };
    let mut rendered: Vec<String> = Vec::new();
    let mut i: usize = 0;
    while i < lines.len()
        invariant
            i <= lines.len(),
            rendered@.len() == i,
            forall|k: int| 0 <= k < i ==> rendered@[k]@ == line_text(lines@[k]@),
        decreases lines.len() - i,
    {
        proof {
            reveal_strlit("");
        }
        let line = join_strings(&lines[i], "");
        assert(""@ =~= Seq::<char>::empty());
        rendered.push(line);
        i = i + 1;
    }
    proof {
        reveal_strlit("\n");
        assert(texts(rendered@) =~= line_texts(lines@));
        assert("\n"@ =~= seq!['\n']);
    }
    Ok(join_strings(&rendered, "\n"))
}

} // verus!
