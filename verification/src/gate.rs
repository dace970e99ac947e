//! The save command: whether a save is due, and the document that is
//! assembled from the host's state objects when it is.

use crate::classify::{
    maybe_save_enum, maybe_save_struct, maybe_save_tuple_struct, placed, placed_complaints,
    struct_complaints, struct_placed, variant_complaints, variant_doc, wrapped_complaints,
    wrapped_doc,
};
use crate::diagnostic::{diagnostics_view, report, single, Diagnostic, DiagnosticKind, DiagnosticView};
use crate::document::Entry;
use crate::reflect::{
    lemma_enum_view, lemma_reflected_view, lemma_struct_view, lemma_tuple_struct_view, Reflected,
    ReflectedView, TupleStructValue, TupleStructView,
};
use crate::table::{new_table, table_entries};
use crate::text::starts_with;
use vstd::prelude::*;

verus! {

/// When preferences are saved.
#[derive(Clone, Copy, PartialEq, Eq, Debug)]
pub enum SavePreferences {
    /// Save preferences only if they have changed.
    IfChanged,
    /// Save preferences unconditionally.
    Always,
}

impl Default for SavePreferences {
    fn default() -> (mode: SavePreferences)
        ensures
            mode == SavePreferences::IfChanged,
    {
        SavePreferences::IfChanged
    }
}

/// The wrapper is the host's holder of the current state of a state
/// machine.
pub open spec fn is_state_holder(wrapper: TupleStructView) -> bool {
    "bevy_state::state::resources::State<"@.is_prefix_of(wrapper.type_path)
}

/// `entries` after the holder of a state was stored: the enumeration that
/// it holds goes by the attributes of its own type.
pub open spec fn state_placed(entries: Seq<Entry>, holder: TupleStructView) -> Seq<Entry> {
    if holder.fields.len() > 0 {
        match holder.fields[0] {
            ReflectedView::Enum(e) => placed(
                entries,
                e.attributes.group,
                e.attributes.key,
                variant_doc(e),
            ),
            _ => entries,
        }
    } else {
        entries
    }
}

/// The diagnostics for the holder of a state. One that holds a struct or
/// a wrapper, or nothing, is reported; any other content that is no
/// enumeration is passed over.
pub open spec fn state_complaints(entries: Seq<Entry>, holder: TupleStructView) -> Seq<
    DiagnosticView,
> {
    if holder.fields.len() > 0 {
        match holder.fields[0] {
            ReflectedView::Enum(e) => placed_complaints(
                entries,
                e.type_path,
                e.attributes.group,
                e.attributes.key,
                |key: Seq<char>| variant_complaints(e, key),
            ),
            ReflectedView::Struct(_) => single(DiagnosticKind::UnsupportedShape, holder.type_path),
            ReflectedView::TupleStruct(_) => single(
                DiagnosticKind::UnsupportedShape,
                holder.type_path,
            ),
            _ => Seq::empty(),
        }
    } else {
        single(DiagnosticKind::UnsupportedShape, holder.type_path)
    }
}

/// `entries` after one state object was looked at. An object without a
/// typed view, one whose type has neither a group nor a key, and a value
/// that is neither a struct, a wrapper nor an enumeration leave the
/// document as it is.
pub open spec fn object_placed(entries: Seq<Entry>, object: Option<ReflectedView>) -> Seq<Entry> {
    match object {
        Some(ReflectedView::Struct(s)) => struct_placed(
            entries,
            s,
            s.attributes.group,
            s.attributes.key,
        ),
        Some(ReflectedView::TupleStruct(t)) => if t.attributes.group is Some
            || t.attributes.key is Some {
            placed(entries, t.attributes.group, t.attributes.key, wrapped_doc(t))
        } else if is_state_holder(t) {
            state_placed(entries, t)
        } else {
            entries
        },
        Some(ReflectedView::Enum(e)) => placed(
            entries,
            e.attributes.group,
            e.attributes.key,
            variant_doc(e),
        ),
        _ => entries,
    }
}

/// The diagnostics for one state object, given the document before it.
pub open spec fn object_complaints(entries: Seq<Entry>, object: Option<ReflectedView>) -> Seq<
    DiagnosticView,
> {
    match object {
        Some(ReflectedView::Struct(s)) => struct_complaints(
            entries,
            s,
            s.attributes.group,
            s.attributes.key,
        ),
        Some(ReflectedView::TupleStruct(t)) => if t.attributes.group is Some
            || t.attributes.key is Some {
            placed_complaints(
                entries,
                t.type_path,
                t.attributes.group,
                t.attributes.key,
                |key: Seq<char>| wrapped_complaints(t, key),
            )
        } else if is_state_holder(t) {
            state_complaints(entries, t)
        } else {
            Seq::empty()
        },
        Some(ReflectedView::Enum(e)) => placed_complaints(
            entries,
            e.type_path,
            e.attributes.group,
            e.attributes.key,
            |key: Seq<char>| variant_complaints(e, key),
        ),
        _ => Seq::empty(),
    }
}

/// The view of a state object: that of its typed view, if it has one.
pub open spec fn object_view(object: Option<Reflected>) -> Option<ReflectedView> {
    match object {
        Some(value) => Some(value@),
        None => None,
    }
}

/// The views of the state objects, in order.
pub open spec fn objects_view(objects: Seq<Option<Reflected>>) -> Seq<Option<ReflectedView>> {
    objects.map_values(|object: Option<Reflected>| object_view(object))
}

/// The document after the first `n` objects were looked at, starting from
/// an empty one.
pub open spec fn assembled(objects: Seq<Option<ReflectedView>>, n: nat) -> Seq<Entry>
    decreases n,
{
    if n == 0 || n > objects.len() {
        Seq::empty()
    } else {
        object_placed(assembled(objects, (n - 1) as nat), objects[n - 1])
    }
}

/// The diagnostics for the first `n` objects.
pub open spec fn assembly_complaints(objects: Seq<Option<ReflectedView>>, n: nat) -> Seq<
    DiagnosticView,
>
    decreases n,
{
    if n == 0 || n > objects.len() {
        Seq::empty()
    } else {
        assembly_complaints(objects, (n - 1) as nat) + object_complaints(
            assembled(objects, (n - 1) as nat),
            objects[n - 1],
        )
    }
}

/// Stores what the holder of a state holds.
fn save_state(
    holder: &TupleStructValue,
    table: &mut toml::Table,
    diagnostics: &mut Vec<Diagnostic>,
)
    ensures
        table_entries(*final(table)) == state_placed(table_entries(*old(table)), holder@),
        diagnostics_view(final(diagnostics)@) == diagnostics_view(old(diagnostics)@)
            + state_complaints(table_entries(*old(table)), holder@),
{
    proof {
        lemma_tuple_struct_view(holder);
    }
    let ghost reported = diagnostics_view(diagnostics@);
    if holder.fields.len() > 0 {
        let state = &holder.fields[0];
        proof {
            lemma_reflected_view(state);
        }
        match state {
            Reflected::Enum(enum_ref) => {
                proof {
                    lemma_enum_view(enum_ref);
                }
                maybe_save_enum(enum_ref, table, diagnostics);
            },
            Reflected::Struct(_) => {
                report(diagnostics, DiagnosticKind::UnsupportedShape, holder.type_path.as_str());
            },
            Reflected::TupleStruct(_) => {
                report(diagnostics, DiagnosticKind::UnsupportedShape, holder.type_path.as_str());
            },
            _ => {
                assert(diagnostics_view(diagnostics@) =~= reported + Seq::empty());
            },
        }
    } else {
        report(diagnostics, DiagnosticKind::UnsupportedShape, holder.type_path.as_str());
    }
}

/// Looks at one state object and stores it where its attributes say.
pub fn save_object(
    object: &Option<Reflected>,
    table: &mut toml::Table,
    diagnostics: &mut Vec<Diagnostic>,
)
    ensures
        table_entries(*final(table)) == object_placed(
            table_entries(*old(table)),
            object_view(*object),
        ),
        diagnostics_view(final(diagnostics)@) == diagnostics_view(old(diagnostics)@)
            + object_complaints(table_entries(*old(table)), object_view(*object)),
{
    let ghost reported = diagnostics_view(diagnostics@);
    proof {
        assert(reported =~= reported + Seq::empty());
    }
    match object {
        Some(value) => {
            proof {
                lemma_reflected_view(value);
            }
            match value {
                Reflected::Struct(strct) => {
                    proof {
                        lemma_struct_view(strct);
                    }
                    maybe_save_struct(
                        strct,
                        &strct.attributes.group,
                        &strct.attributes.key,
                        table,
                        diagnostics,
                    );
                },
                Reflected::TupleStruct(tuple_struct) => {
                    proof {
                        lemma_tuple_struct_view(tuple_struct);
                    }
                    if tuple_struct.attributes.group.is_some()
                        || tuple_struct.attributes.key.is_some() {
                        maybe_save_tuple_struct(
                            tuple_struct,
                            &tuple_struct.attributes.group,
                            &tuple_struct.attributes.key,
                            table,
                            diagnostics,
                        );
                    } else if starts_with(
                        tuple_struct.type_path.as_str(),
                        "bevy_state::state::resources::State<",
                    ) {
                        save_state(tuple_struct, table, diagnostics);
                    }
                },
                Reflected::Enum(enum_ref) => {
                    proof {
                        lemma_enum_view(enum_ref);
                    }
                    maybe_save_enum(enum_ref, table, diagnostics);
                },
                _ => {},
            }
        },
        None => {},
    }
}

/// A save is due: the preferences have changed, or the save is forced.
pub open spec fn is_due(mode: SavePreferences, changed: bool) -> bool {
    changed || mode == SavePreferences::Always
}

/// Assembles a fresh document from the state objects, in their order.
pub fn assemble(objects: &Vec<Option<Reflected>>, diagnostics: &mut Vec<Diagnostic>) -> (document:
    toml::Table)
    ensures
        table_entries(document) == assembled(objects_view(objects@), objects@.len()),
        diagnostics_view(final(diagnostics)@) == diagnostics_view(old(diagnostics)@)
            + assembly_complaints(objects_view(objects@), objects@.len()),
{
    let ghost reported = diagnostics_view(diagnostics@);
    let ghost views = objects_view(objects@);
    let mut table = new_table();
    let mut i: usize = 0;
    proof {
        assert(reported =~= reported + Seq::empty());
    }
    while i < objects.len()
        invariant
            i <= objects.len(),
            views == objects_view(objects@),
            table_entries(table) == assembled(views, i as nat),
            diagnostics_view(diagnostics@) == reported + assembly_complaints(views, i as nat),
        decreases objects.len() - i,
    {
        let ghost before = assembly_complaints(views, i as nat);
        let ghost entries = table_entries(table);
        save_object(&objects[i], &mut table, diagnostics);
        proof {
            let added = object_complaints(entries, views[i as int]);
            assert(views[i as int] == object_view(objects@[i as int]));
            assert((reported + before) + added =~= reported + (before + added));
        }
        i += 1;
    }
    table
}

impl SavePreferences {
    /// Decides whether a save is due and clears the dirty flag: before the
    /// document is assembled and written, so that a change made after the
    /// save arms the next one.
    pub fn begin(self, changed: &mut bool) -> (due: bool)
        ensures
            due == is_due(self, *old(changed)),
            !*final(changed),
    {
        let due = *changed || matches!(self, SavePreferences::Always);
        if due {
            *changed = false;
        }
        due
    }

    /// Saves if a save is due: clears the dirty flag and then assembles
    /// the document. Returns `None`, with nothing assembled and nothing
    /// reported, where no save is due.
    pub fn apply(
        self,
        changed: &mut bool,
        objects: &Vec<Option<Reflected>>,
        diagnostics: &mut Vec<Diagnostic>,
    ) -> (document: Option<toml::Table>)
        ensures
            !*final(changed),
            document is Some <==> is_due(self, *old(changed)),
            document matches Some(table) ==> table_entries(table) == assembled(
                objects_view(objects@),
                objects@.len(),
            ),
            diagnostics_view(final(diagnostics)@) == diagnostics_view(old(diagnostics)@) + (
            if is_due(self, *old(changed)) {
                assembly_complaints(objects_view(objects@), objects@.len())
            } else {
                Seq::empty()
            }),
    {
        let ghost reported = diagnostics_view(diagnostics@);
        if self.begin(changed) {
            Some(assemble(objects, diagnostics))
        } else {
            proof {
                assert(reported =~= reported + Seq::empty());
            }
            None
        }
    }
}

} // verus!
