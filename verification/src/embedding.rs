//! Embedding request input model.

use vstd::prelude::*;

verus! {

/// Input for an embedding request: one text or several.
#[derive(Debug, Clone)]
pub enum EmbedInput {
    /// A single text input.
    Single(String),
    /// Several text inputs.
    Multiple(Vec<String>),
}

impl EmbedInput {
    /// How many texts the input holds.
    pub fn input_count(&self) -> (r: usize)
        ensures
            match self {
                EmbedInput::Single(_) => r == 1,
                EmbedInput::Multiple(v) => r == v@.len(),
            },
    {
        match self {
            EmbedInput::Single(_) => 1,
            EmbedInput::Multiple(v) => v.len(),
        }
    }
}

impl EmbedInput {
    /// The texts of the input, as a list: one element for a single
    /// input, the elements themselves for several.
    pub fn inputs_as_vec(&self) -> (r: Vec<String>)
        ensures
            match self {
                EmbedInput::Single(s) => r.deep_view() == seq![s@],
                EmbedInput::Multiple(v) => r.deep_view() == v.deep_view(),
            },
    {
        broadcast use vstd::std_specs::vec::vec_clone_deep_view_proof;

        match self {
            EmbedInput::Single(s) => {
                let mut r: Vec<String> = Vec::new();
                r.push(s.clone());
                proof {
                    assert(r.deep_view() =~= seq![s@]);
                }
                r
            },
            EmbedInput::Multiple(v) => {
                let r = v.clone();
                proof {
                    assert(r.deep_view() =~= v.deep_view());
                }
                r
            },
        }
    }
}

impl Default for EmbedInput {
    /// A single empty text.
    fn default() -> (r: Self)
        ensures
            r matches EmbedInput::Single(s) && s@ == Seq::<char>::empty(),
    {
        EmbedInput::Single(String::new())
    }
}

impl From<String> for EmbedInput {
    fn from(s: String) -> (r: Self) {
        EmbedInput::Single(s)
    }
}

impl vstd::std_specs::convert::FromSpecImpl<String> for EmbedInput {
    open spec fn obeys_from_spec() -> bool {
        true
    }

    open spec fn from_spec(s: String) -> Self {
        EmbedInput::Single(s)
    }
}

impl<'a> From<&'a str> for EmbedInput {
    fn from(s: &'a str) -> (r: Self) {
        EmbedInput::Single(String::from_str(s))
    }
}

impl<'a> vstd::std_specs::convert::FromSpecImpl<&'a str> for EmbedInput {
    open spec fn obeys_from_spec() -> bool {
        false
    }

    open spec fn from_spec(s: &'a str) -> Self {
        vstd::pervasive::arbitrary()
    }
}

impl From<Vec<String>> for EmbedInput {
    fn from(v: Vec<String>) -> (r: Self) {
        EmbedInput::Multiple(v)
    }
}

impl vstd::std_specs::convert::FromSpecImpl<Vec<String>> for EmbedInput {
    open spec fn obeys_from_spec() -> bool {
        true
    }

    open spec fn from_spec(v: Vec<String>) -> Self {
        EmbedInput::Multiple(v)
    }
}

impl<'a> vstd::std_specs::convert::FromSpecImpl<Vec<&'a str>> for EmbedInput {
    open spec fn obeys_from_spec() -> bool {
        false
    }

    open spec fn from_spec(v: Vec<&'a str>) -> Self {
        vstd::pervasive::arbitrary()
    }
}

impl<'a> From<Vec<&'a str>> for EmbedInput {
    fn from(v: Vec<&'a str>) -> (r: Self) {
        let mut out: Vec<String> = Vec::new();
        let mut i: usize = 0;
        while i < v.len()
            invariant
                0 <= i <= v@.len(),
                out.deep_view() =~= v.deep_view().subrange(0, i as int),
            decreases v@.len() - i,
        {
            let ghost pre = out.deep_view();
            let s = String::from_str(v[i]);
            proof {
                assert(s.deep_view() == v@[i as int].deep_view());
            }
            out.push(s);
            proof {
                assert(out.deep_view() =~= pre.push(s.deep_view()));
                assert(out.deep_view() =~= v.deep_view().subrange(0, i + 1));
            }
            i = i + 1;
        }
        proof {
            assert(v.deep_view().subrange(0, v.deep_view().len() as int) =~= v.deep_view());
        }
        EmbedInput::Multiple(out)
    }
}

} // verus!
