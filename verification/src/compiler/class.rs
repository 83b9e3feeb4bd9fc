use vstd::prelude::*;

use crate::gramar::ast::JackClass;
use crate::gramar::units::var_name::JackVariableName;

use super::vars::{
    can_migrate_all, declaration_taken, declaration_views, empty_table, migrated_all,
    JackTableNames, TableV,
};

verus! {

/// What the compilation of a class's subroutines shares: the class's name
/// and its table of `static` and `field` variables.
pub struct JackClassCompilerContext {
    pub class_name: JackVariableName,
    pub vars: JackTableNames,
}

/// A class context by its view.
pub struct ClassContextV {
    pub name: Seq<u8>,
    pub vars: TableV,
}

impl View for JackClassCompilerContext {
    type V = ClassContextV;

    open spec fn view(&self) -> ClassContextV {
        ClassContextV { name: self.class_name.0@, vars: self.vars@ }
    }
}

/// The class variables can all be entered in a table.
pub open spec fn class_ok(vars: Seq<crate::gramar::ast::JackDeclaration>) -> bool {
    can_migrate_all(empty_table(), declaration_views(vars))
}

impl JackClassCompilerContext {
    /// Enters the class's variable declarations in a table, in order, and
    /// moves the class's name out.
    pub fn init(class: &mut JackClass) -> (r: Self)
        requires
            class_ok(old(class).vars@),
        ensures
            r@ == (ClassContextV {
                name: old(class).name.0@,
                vars: migrated_all(empty_table(), declaration_views(old(class).vars@)),
            }),
            final(class).name.0@ == Seq::<u8>::empty(),
            final(class).subroutines@ == old(class).subroutines@,
            final(class).vars@.len() == old(class).vars@.len(),
            forall|j: int|
                0 <= j < final(class).vars@.len() ==> (#[trigger] final(class).vars@[j])@
                    == declaration_taken(old(class).vars@[j]@),
    {
        let mut global = JackTableNames::new();
        global.migrate_all(&mut class.vars);
        Self { class_name: class.name.take(), vars: global }
    }

    /// The class's name.
    pub fn class(&self) -> (r: &JackVariableName)
        ensures
            r.0@ == self@.name,
    {
        &self.class_name
    }
}

} // verus!
