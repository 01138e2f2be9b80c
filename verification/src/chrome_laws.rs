//! Laws of the chrome reducer: attention navigation and what a snapshot
//! projects.

use vstd::prelude::*;

use crate::chrome::{
    agents_for, attention_index_from, block_state_label, failed, has_agent, has_block, in_section, listed_commands,
    mode_section, spec_chrome_apply, spec_filter_rows, visible_block, AttentionId, AttentionModel,
    ChromeAction, ChromeEffect, ChromeError, ChromeModel, InspectorMode, RowModel,
};
use crate::chrome_palette::{lemma_filter_len, spec_clamp, spec_filter};
use crate::composer::{spec_record_state, BlockModel, BlockPresentationState};
use crate::shell::ShellSnapshot;

verus! {

/// The search for an attention id from `from` finds its first occurrence at
/// or after `from`, or reports -1 when there is none.
proof fn lemma_attention_index(items: Seq<AttentionModel>, id: Seq<char>, from: int)
    requires
        0 <= from,
    ensures
        attention_index_from(items, id, from) == -1 || (from <= attention_index_from(
            items,
            id,
            from,
        ) < items.len() && items[attention_index_from(items, id, from)].id == id),
        forall|i: int|
            from <= i < items.len() && (attention_index_from(items, id, from) == -1 || i
                < attention_index_from(items, id, from)) ==> (#[trigger] items[i]).id != id,
    decreases items.len() - from,
{
    if from < items.len() && items[from].id != id {
        lemma_attention_index(items, id, from + 1);
    }
}

/// Opening an attention item navigates to it and then dismisses it. On
/// success the effect selects the item's Workspace and Tab; the item (the
/// first with that id) leaves the list and the others keep their order; the
/// popover closes; and the item's agent, which is one of the agents of the
/// item's Workspace (or of the active one), becomes the selected agent. An
/// unknown id is refused, and a refused open changes nothing but the
/// recorded error.
pub proof fn open_attention_navigates_then_dismisses(
    o: ChromeModel,
    n: ChromeModel,
    id: AttentionId,
    shell: ShellSnapshot,
    blocks: Seq<BlockModel>,
    r: Result<ChromeEffect, ChromeError>,
)
    requires
        spec_chrome_apply(o, n, ChromeAction::OpenAttention { id }, shell, blocks, r),
    ensures
        r is Ok ==> exists|k: int|
            0 <= k < o.attention.len() && (#[trigger] o.attention[k]).id == id@ && (forall|i: int|
                0 <= i < k ==> (#[trigger] o.attention[i]).id != id@) && r == Ok::<
                ChromeEffect,
                ChromeError,
            >(
                ChromeEffect {
                    select_workspace: o.attention[k].workspace,
                    select_tab: o.attention[k].tab,
                    palette_command: None,
                },
            ) && n.attention == o.attention.remove(k) && !n.attention_popover_open
                && n.selected_agent == o.attention[k].agent && (o.attention[k].agent matches Some(
                g,
            ) ==> has_agent(
                agents_for(
                    o.agents,
                    match o.attention[k].workspace {
                        Some(w) => w,
                        None => shell.active_workspace,
                    },
                ),
                g,
            )),
        r matches Err(e) ==> n == failed(o, e),
        (forall|k: int| 0 <= k < o.attention.len() ==> (#[trigger] o.attention[k]).id != id@) ==> r
            == Err::<ChromeEffect, ChromeError>(ChromeError::UnknownAttention),
{
    lemma_attention_index(o.attention, id@, 0);
    let k = attention_index_from(o.attention, id@, 0);
    if k >= 0 {
        assert(o.attention[k].id == id@);
    }
}

/// What a chrome snapshot projects. The visible inspector rows are, in
/// order, the rows of the mode's section ("Workspace", "Tab", "Active Pane"
/// or "Block"), and every row in the Context mode. The palette lists the
/// filtered catalog while open and nothing while closed. The selection is
/// clamped into the listed rows, and is zero when there are none. The
/// selected Block is kept only while the focused Pane still projects it.
pub proof fn chrome_snapshot_projection(m: ChromeModel, rows: Seq<RowModel>, blocks: Seq<BlockModel>)
    ensures
        forall|r: RowModel|
            #[trigger] spec_filter_rows(rows, m.inspector_mode).contains(r) <==> rows.contains(r)
                && match mode_section(m.inspector_mode) {
                Some(section) => r.section == section,
                None => true,
            },
        m.inspector_mode == InspectorMode::Context ==> spec_filter_rows(rows, m.inspector_mode)
            == rows,
        listed_commands(m) == if m.palette_open {
            spec_filter(m.palette_query)
        } else {
            Seq::empty()
        },
        listed_commands(m).len() == 0 ==> spec_clamp(m.palette_selected, 0) == 0,
        listed_commands(m).len() > 0 ==> spec_clamp(
            m.palette_selected,
            listed_commands(m).len() as usize,
        ) < listed_commands(m).len(),
        visible_block(m.selected_block, blocks) == match m.selected_block {
            Some(b) => if has_block(blocks, b) {
                Some(b)
            } else {
                None
            },
            None => None,
        },
{
    broadcast use vstd::seq_lib::group_filter_ensures;

    lemma_filter_len(m.palette_query);
    match mode_section(m.inspector_mode) {
        Some(section) => {
            let f = rows.filter(in_section(section));
            assert forall|r: RowModel| #[trigger] f.contains(r) <==> rows.contains(r) && r.section
                == section by {
                if f.contains(r) {
                    rows.lemma_filter_contains_rev(in_section(section), r);
                    let k = choose|k: int| 0 <= k < f.len() && f[k] == r;
                    assert(in_section(section)(f[k]));
                }
                if rows.contains(r) && r.section == section {
                    let k = choose|k: int| 0 <= k < rows.len() && rows[k] == r;
                    assert(in_section(section)(rows[k]));
                }
            }
        },
        None => {},
    }
}

/// Block state labels tell states apart and say what happened to the
/// command: distinct states get distinct labels; a record reads "Running"
/// exactly while it runs, "Completed" exactly when it stopped with exit
/// status 0, and "Failed" exactly when it stopped with any other status or
/// none.
pub proof fn block_state_labels_tell_outcomes_apart(
    a: BlockPresentationState,
    b: BlockPresentationState,
    running: bool,
    exit_status: Option<i32>,
)
    ensures
        block_state_label(a) == block_state_label(b) ==> a == b,
        (block_state_label(spec_record_state(running, exit_status)) == "Running"@) == running,
        (block_state_label(spec_record_state(running, exit_status)) == "Completed"@) == (!running
            && exit_status == Some(0i32)),
        (block_state_label(spec_record_state(running, exit_status)) == "Failed"@) == (!running
            && exit_status != Some(0i32)),
{
    reveal_strlit("Running");
    reveal_strlit("Completed");
    reveal_strlit("Failed");
    assert("Running"@ != "Completed"@) by {
        assert("Running"@.len() != "Completed"@.len());
    }
    assert("Running"@ != "Failed"@) by {
        assert("Running"@[0] != "Failed"@[0]);
    }
    assert("Completed"@ != "Failed"@) by {
        assert("Completed"@.len() != "Failed"@.len());
    }
}

} // verus!
