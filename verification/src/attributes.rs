//! Annotations that the caller wants on generated items.

use vstd::prelude::*;
use vstd::string::*;
use crate::text::{str_eq, views};

verus! {

/// One rule: a pattern and the annotation fragment that it attaches.
pub struct AttributeRule {
    pattern: String,
    fragment: String,
}

impl View for AttributeRule {
    type V = (Seq<char>, Seq<char>);

    closed spec fn view(&self) -> (Seq<char>, Seq<char>) {
        (self.pattern@, self.fragment@)
    }
}

/// The views of a list of rules.
pub open spec fn rule_views(rules: Seq<AttributeRule>) -> Seq<(Seq<char>, Seq<char>)> {
    rules.map_values(|r: AttributeRule| r@)
}

/// A pattern matches a path when it is the wildcard `.` or the path itself.
pub open spec fn matches_name(pattern: Seq<char>, path: Seq<char>) -> bool {
    pattern == "."@ || pattern == path
}

/// The fragments of the rules that match a path, in the order of the rules.
pub open spec fn selected(rules: Seq<(Seq<char>, Seq<char>)>, path: Seq<char>) -> Seq<Seq<char>>
    decreases rules.len(),
{
    if rules.len() == 0 {
        Seq::empty()
    } else if matches_name(rules.last().0, path) {
        selected(rules.drop_last(), path).push(rules.last().1)
    } else {
        selected(rules.drop_last(), path)
    }
}

/// Whether a pattern matches a path.
pub fn match_name(pattern: &str, path: &str) -> (r: bool)
    ensures
        r == matches_name(pattern@, path@),
{
    str_eq(pattern, ".") || str_eq(pattern, path)
}

/// Collects the fragments of the rules that match a path.
pub fn generate_attributes(path: &str, rules: &Vec<AttributeRule>) -> (r: Vec<String>)
    ensures
        views(r@) == selected(rule_views(rules@), path@),
{
    let ghost all = rule_views(rules@);
    let mut out: Vec<String> = Vec::new();
    let mut i: usize = 0;
    while i < rules.len()
        invariant
            i <= rules.len(),
            all == rule_views(rules@),
            views(out@) == selected(all.take(i as int), path@),
        decreases rules.len() - i,
    {
        proof {
            let next = all.take(i + 1);
            assert(next.drop_last() =~= all.take(i as int));
            assert(next.last() == rules@[i as int]@);
        }
        let ghost before = views(out@);
        if match_name(rules[i].pattern.as_str(), path) {
            out.push(rules[i].fragment.clone());
            proof {
                assert(views(out@) =~= before.push(rules@[i as int]@.1));
            }
        }
        i += 1;
    }
    proof {
        assert(all.take(rules.len() as int) =~= all);
    }
    out
}

/// The annotations for generated modules and for generated structs.
pub struct Attributes {
    module: Vec<AttributeRule>,
    structure: Vec<AttributeRule>,
}

impl Attributes {
    /// The rules for modules, in the order in which they were added.
    pub closed spec fn module_rules(&self) -> Seq<(Seq<char>, Seq<char>)> {
        rule_views(self.module@)
    }

    /// The rules for structs, in the order in which they were added.
    pub closed spec fn struct_rules(&self) -> Seq<(Seq<char>, Seq<char>)> {
        rule_views(self.structure@)
    }

    /// No rules at all.
    pub fn new() -> (r: Attributes)
        ensures
            r.module_rules() == Seq::<(Seq<char>, Seq<char>)>::empty(),
            r.struct_rules() == Seq::<(Seq<char>, Seq<char>)>::empty(),
    {
        let r = Attributes { module: Vec::new(), structure: Vec::new() };
        proof {
            assert(rule_views(r.module@) =~= Seq::<(Seq<char>, Seq<char>)>::empty());
            assert(rule_views(r.structure@) =~= Seq::<(Seq<char>, Seq<char>)>::empty());
        }
        r
    }

    /// Adds a rule for modules.
    pub fn push_mod(&mut self, pattern: String, fragment: String)
        ensures
            final(self).module_rules() == old(self).module_rules().push((pattern@, fragment@)),
            final(self).struct_rules() == old(self).struct_rules(),
    {
        let ghost before = rule_views(self.module@);
        self.module.push(AttributeRule { pattern, fragment });
        proof {
            assert(rule_views(self.module@) =~= before.push((pattern@, fragment@)));
        }
    }

    /// Adds a rule for structs.
    pub fn push_struct(&mut self, pattern: String, fragment: String)
        ensures
            final(self).struct_rules() == old(self).struct_rules().push((pattern@, fragment@)),
            final(self).module_rules() == old(self).module_rules(),
    {
        let ghost before = rule_views(self.structure@);
        self.structure.push(AttributeRule { pattern, fragment });
        proof {
            assert(rule_views(self.structure@) =~= before.push((pattern@, fragment@)));
        }
    }

    /// The annotations for the module of a package. Where no rule matches the
    /// list is empty.
    pub fn for_mod(&self, name: &str) -> (r: Vec<String>)
        ensures
            views(r@) == selected(self.module_rules(), name@),
    {
        generate_attributes(name, &self.module)
    }

    /// The annotations for the struct of a service, by its path. Where no rule
    /// matches the list is empty.
    pub fn for_struct(&self, name: &str) -> (r: Vec<String>)
        ensures
            views(r@) == selected(self.struct_rules(), name@),
    {
        generate_attributes(name, &self.structure)
    }
}

impl Default for Attributes {
    fn default() -> (r: Attributes)
        ensures
            r.module_rules() == Seq::<(Seq<char>, Seq<char>)>::empty(),
            r.struct_rules() == Seq::<(Seq<char>, Seq<char>)>::empty(),
    {
        Attributes::new()
    }
}

} // verus!
