//! A generated project: the immutable bundle of texts an external
//! generator produced for one language, materialized to the fixed relative
//! paths the language descriptor dictates.

use vstd::prelude::*;

verus! {

use crate::lang::{project_paths_spec, Lang};

/// The generated texts of one project: the dependency manifest, the
/// solution source, the test source, and zero or more extra config texts.
pub struct Project {
    pub dependencies: String,
    pub solution_code: String,
    pub test_code: String,
    pub additional_config: Vec<String>,
}

/// The project's texts in the language's fixed file order: manifest,
/// solution, test, extra configs. A language whose solution file carries
/// its tests inline has no separate test text.
pub open spec fn project_texts_spec(l: Lang, p: Project) -> Seq<Seq<char>> {
    match l {
        Lang::Rust => seq![p.dependencies@, p.solution_code@],
        _ => seq![p.dependencies@, p.solution_code@, p.test_code@]
            + p.additional_config.deep_view(),
    }
}

/// The bundle carries exactly one text for each path of the language's
/// descriptor.
pub open spec fn matches_layout(l: Lang, p: Project) -> bool {
    project_texts_spec(l, p).len() == project_paths_spec(l).len()
}

impl Project {
    /// The project's texts, one per descriptor path, in the fixed order
    /// the cache key concatenates them.
    pub fn file_texts(&self, l: Lang) -> (r: Vec<String>)
        ensures
            r.deep_view() == project_texts_spec(l, *self),
    {
        let mut v: Vec<String> = Vec::new();
        v.push(self.dependencies.clone());
        v.push(self.solution_code.clone());
        match l {
            Lang::Rust => {},
            _ => {
                v.push(self.test_code.clone());
                let extras = self.additional_config.len();
                let mut i: usize = 0;
                while i < extras
                    invariant
                        i <= extras,
                        extras == self.additional_config@.len(),
                        v@.len() == 3 + i,
                        v.deep_view() =~= seq![
                            self.dependencies@,
                            self.solution_code@,
                            self.test_code@,
                        ] + self.additional_config.deep_view().take(i as int),
                    decreases extras - i,
                {
                    let ghost pre = v.deep_view();
                    v.push(self.additional_config[i].clone());
                    proof {
                        assert(v.deep_view() =~= pre.push(
                            self.additional_config.deep_view()[i as int],
                        ));
                        assert(self.additional_config.deep_view().take(i + 1)
                            =~= self.additional_config.deep_view().take(i as int).push(
                            self.additional_config.deep_view()[i as int],
                        ));
                        assert(v.deep_view() =~= seq![
                            self.dependencies@,
                            self.solution_code@,
                            self.test_code@,
                        ] + self.additional_config.deep_view().take(i + 1));
                    }
                    i += 1;
                }
                proof {
                    assert(self.additional_config.deep_view().take(extras as int)
                        =~= self.additional_config.deep_view());
                }
            },
        }
        proof {
            assert(v.deep_view() =~= project_texts_spec(l, *self));
        }
        v
    }
}

} // verus!
