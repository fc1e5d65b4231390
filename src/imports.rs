use crate::ast::{import_model, ExportName, ExportNameM, Ident, ImportDecl, ImportM, ImportSpecifier, SpecifierM, specifier_model};
use crate::keys::IdentKeySet;
use vstd::prelude::*;

verus! {

/// The name a specifier takes from its module: the explicit imported name
/// (identifier or string) when there is one, the local name otherwise.
pub open spec fn external_name(s: SpecifierM) -> Option<Seq<char>> {
    match s {
        SpecifierM::Named(_, Some(ExportNameM::Ident(n))) => Some(n),
        SpecifierM::Named(_, Some(ExportNameM::Str(n))) => Some(n),
        SpecifierM::Named(local, _) => Some(local.sym),
        _ => None,
    }
}

pub open spec fn local_key(s: SpecifierM) -> Seq<char> {
    match s {
        SpecifierM::Named(local, _) => local.sym,
        SpecifierM::Default(local) => local.sym,
        SpecifierM::Namespace(local) => local.sym,
    }
}

/// The local bindings that `d` gives to the export `export` of the module `module`.
pub open spec fn bound_by(d: ImportM, export: Seq<char>, module: Seq<char>) -> Set<Seq<char>> {
    Set::new(
        |k: Seq<char>|
            d.src == module && exists|i: int|
                0 <= i < d.specifiers.len() && external_name(#[trigger] d.specifiers[i]) == Some(
                    export,
                ) && local_key(d.specifiers[i]) == k,
    )
}

/// Tracks the local bindings of one export of one module.
pub struct ImportsExtractor {
    pub specifiers: IdentKeySet,
    pub export_name: String,
    pub module_name: String,
}

impl ImportsExtractor {
    pub fn new(export_name: &str, module_name: &str) -> (r: Self)
        ensures
            r.specifiers@ == Set::<Seq<char>>::empty(),
            r.export_name@ == export_name@,
            r.module_name@ == module_name@,
    {
        ImportsExtractor {
            specifiers: IdentKeySet::new(),
            export_name: String::from_str(export_name),
            module_name: String::from_str(module_name),
        }
    }

    /// Records the bindings that `n` gives to the tracked export.
    pub fn extract(&mut self, n: &ImportDecl)
        ensures
            final(self).export_name == old(self).export_name,
            final(self).module_name == old(self).module_name,
            final(self).specifiers@ == old(self).specifiers@.union(
                bound_by(import_model(*n), old(self).export_name@, old(self).module_name@),
            ),
    {
        let ghost d = import_model(*n);
        let ghost b = bound_by(d, self.export_name@, self.module_name@);
        if n.src != self.module_name {
            assert(b =~= Set::<Seq<char>>::empty());
            assert(self.specifiers@.union(b) =~= self.specifiers@);
            return;
        }
        let mut i: usize = 0;
        while i < n.specifiers.len()
            invariant
                0 <= i <= n.specifiers@.len(),
                d == import_model(*n),
                d.src == self.module_name@,
                b == bound_by(d, self.export_name@, self.module_name@),
                self.export_name == old(self).export_name,
                self.module_name == old(self).module_name,
                self.specifiers@ == old(self).specifiers@.union(
                    Set::new(
                        |k: Seq<char>|
                            exists|j: int|
                                0 <= j < i && external_name(#[trigger] d.specifiers[j]) == Some(
                                    self.export_name@,
                                ) && local_key(d.specifiers[j]) == k,
                    ),
                ),
            decreases n.specifiers@.len() - i,
        {
            let ghost sm = d.specifiers[i as int];
            assert(sm == specifier_model(n.specifiers@[i as int]));
            match &n.specifiers[i] {
                ImportSpecifier::Named(local, imported) => {
                    let matches = match imported {
                        Some(ExportName::Ident(name)) => *name == self.export_name,
                        Some(ExportName::Str(name)) => *name == self.export_name,
                        None => local.sym == self.export_name,
                    };
                    if matches {
                        self.specifiers.insert(local);
                    }
                },
                _ => {},
            }
            assert(self.specifiers@ =~= old(self).specifiers@.union(
                Set::new(
                    |k: Seq<char>|
                        exists|j: int|
                            0 <= j < i + 1 && external_name(#[trigger] d.specifiers[j]) == Some(
                                self.export_name@,
                            ) && local_key(d.specifiers[j]) == k,
                ),
            ));
            i = i + 1;
        }
        assert(self.specifiers@ =~= old(self).specifiers@.union(b));
    }

    /// Whether `ident` is bound to the tracked export.
    pub fn contains(&self, ident: &Ident) -> (r: bool)
        ensures
            r == self.specifiers@.contains(ident.sym@),
    {
        self.specifiers.contains(ident)
    }
}

} // verus!
