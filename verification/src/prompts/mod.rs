//! The prompts: their options and the state machines that answer key presses.
//!
//! Each prompt is driven one key at a time: the caller draws the prompt, reads
//! a key, hands it to the prompt and gets back a [PromptStep] telling whether
//! the prompt goes on, was answered, canceled or interrupted.

pub mod confirm;
pub mod custom_type;
pub mod date_select;
pub mod editor;
pub mod input;
pub mod multiselect;
pub mod password;
pub mod select;
pub mod text;

pub use confirm::Confirm;
pub use custom_type::{CustomType, CustomTypePrompt};
pub use date_select::{DateSelect, DateSelectConfig, DateSelectPrompt};
pub use input::InputOptions;
pub use multiselect::{MultiSelect, MultiSelectPrompt};
pub use password::{Password, PasswordDisplayMode, PasswordPrompt};
pub use select::{Select, SelectPrompt};
pub use text::{Text, TextPrompt};

use crate::error::{InquireError, InquireResult};
use vstd::prelude::*;

verus! {

/// Default page size when displaying options to the user.
pub const DEFAULT_PAGE_SIZE: usize = 7;

/// Default value of vim mode.
pub const DEFAULT_VIM_MODE: bool = false;

/// Specifies the keymap mode to use when navigating prompts.
#[derive(Debug, Clone, Copy, PartialEq, Eq, Structural)]
pub enum KeymapMode {
    /// No keybindings are enabled.
    Disabled,
    /// Vim keybindings (hjkl) are enabled.
    Vim,
    /// Emacs keybindings (C-p, C-n, C-f, C-b) are enabled.
    Emacs,
}

/// Default value of keymap mode.
pub const DEFAULT_KEYMAP_MODE: KeymapMode = KeymapMode::Disabled;

/// A prompt driven by key presses, as far as contracts speak of it: which
/// states and steps one key can lead to.
pub trait KeyDriven: Sized {
    /// What an answer of the prompt is.
    type Answer;

    /// Whether handling `key` in this state can give the step `r` and leave
    /// the prompt in the state `after`.
    spec fn handled(&self, key: crate::key::Key, after: Self, r: PromptStep<Self::Answer>) -> bool;
}

/// Whether handling the keys `keys` one after another, from the state `p`,
/// can give the step `r`: the first step that is not `Continue`, with the
/// keys after it left unhandled; or `Continue` when every key was handled,
/// the prompt then being in the state `last`.
pub open spec fn ran<P: KeyDriven>(p: P, keys: Seq<crate::key::Key>, last: P, r: PromptStep<P::Answer>) -> bool
    decreases keys.len(),
{
    if keys.len() == 0 {
        r is Continue && last == p
    } else {
        exists|mid: P, r1: PromptStep<P::Answer>| #[trigger] p.handled(keys[0], mid, r1) && if r1 is Continue {
            ran(mid, keys.drop_first(), last, r)
        } else {
            r == r1
        }
    }
}

/// The keys of a list of key events.
pub open spec fn keys_of(events: Seq<crate::key::KeyEvent>) -> Seq<crate::key::Key> {
    events.map_values(|e: crate::key::KeyEvent| crate::key::spec_key_from_event(e))
}

/// A run of keys that went on through every key, followed by one more key.
pub proof fn lemma_ran_push<P: KeyDriven>(
    p: P,
    keys: Seq<crate::key::Key>,
    mid: P,
    key: crate::key::Key,
    after: P,
    r: PromptStep<P::Answer>,
)
    requires
        ran(p, keys, mid, PromptStep::Continue),
        mid.handled(key, after, r),
    ensures
        r is Continue ==> ran(p, keys.push(key), after, PromptStep::Continue),
        !(r is Continue) ==> forall|last: P| ran(p, keys.push(key), last, r),
    decreases keys.len(),
{
    if keys.len() == 0 {
        assert(keys.push(key).drop_first() =~= Seq::<crate::key::Key>::empty());
        assert(keys.push(key)[0] == key);
        if r is Continue {
            assert(ran(after, Seq::<crate::key::Key>::empty(), after, PromptStep::Continue));
            assert(p.handled(keys.push(key)[0], after, r));
        } else {
            assert forall|last: P| ran(p, keys.push(key), last, r) by {
                assert(p.handled(keys.push(key)[0], after, r));
            }
        }
    } else {
        let (m1, r1) = choose|m1: P, r1: PromptStep<P::Answer>| #[trigger] p.handled(keys[0], m1, r1) && if r1 is Continue {
            ran(m1, keys.drop_first(), mid, PromptStep::Continue)
        } else {
            PromptStep::<P::Answer>::Continue == r1
        };
        lemma_ran_push(m1, keys.drop_first(), mid, key, after, r);
        assert(keys.push(key).drop_first() =~= keys.drop_first().push(key));
        assert(keys.push(key)[0] == keys[0]);
        assert(p.handled(keys.push(key)[0], m1, r1));
        if !(r is Continue) {
            assert forall|last: P| ran(p, keys.push(key), last, r) by {
                assert(ran(m1, keys.push(key).drop_first(), last, r));
                assert(p.handled(keys.push(key)[0], m1, r1));
            }
        }
    }
}

/// Runs that went on through every key extend one key at a time, starting
/// from no key at all.
pub proof fn lemma_ran_empty<P: KeyDriven>(p: P)
    ensures
        ran(p, Seq::empty(), p, PromptStep::Continue),
{
}

/// What a prompt did with a key.
#[derive(Debug, PartialEq)]
pub enum PromptStep<T> {
    /// The prompt goes on.
    Continue,
    /// The user submitted this answer.
    Answered(T),
    /// The user canceled the prompt (ESC).
    Canceled,
    /// The user interrupted the prompt (Ctrl+C).
    Interrupted,
    /// A callback of the prompt failed; the prompt ends with this error.
    Failed(crate::error::CustomUserError),
}

/// The result of a prompt that a step ended: the answer, or the error that
/// ESC, ctrl-c or a failing callback raises; `None` while the prompt goes on.
pub fn step_result<T>(step: PromptStep<T>) -> (r: Option<InquireResult<T>>)
    ensures
        match step {
            PromptStep::Continue => r is None,
            PromptStep::Answered(v) => r == Some(Ok::<T, InquireError>(v)),
            PromptStep::Canceled => r matches Some(Err(InquireError::OperationCanceled)),
            PromptStep::Interrupted => r matches Some(Err(InquireError::OperationInterrupted)),
            PromptStep::Failed(e) => r == Some(Err::<T, InquireError>(InquireError::Custom(e))),
        },
{
    match step {
        PromptStep::Continue => None,
        PromptStep::Answered(v) => Some(Ok(v)),
        PromptStep::Canceled => Some(Err(InquireError::OperationCanceled)),
        PromptStep::Interrupted => Some(Err(InquireError::OperationInterrupted)),
        PromptStep::Failed(e) => Some(Err(InquireError::from_custom(e))),
    }
}

/// The result of a prompt where skipping it is normal: an answer comes wrapped
/// in `Some`, a canceled prompt (ESC) gives `Ok(None)`, and any other error
/// is passed on.
pub open spec fn spec_skip_canceled<T>(result: InquireResult<T>) -> InquireResult<Option<T>> {
    match result {
        Ok(v) => Ok(Some(v)),
        Err(InquireError::OperationCanceled) => Ok(None),
        Err(e) => Err(e),
    }
}

/// Turns the result of a prompt into that of a skippable prompt (see
/// [spec_skip_canceled]).
pub fn skip_canceled<T>(result: InquireResult<T>) -> (r: InquireResult<Option<T>>)
    ensures
        r == spec_skip_canceled(result),
{
    match result {
        Ok(answer) => Ok(Some(answer)),
        Err(InquireError::OperationCanceled) => Ok(None),
        Err(err) => Err(err),
    }
}

/// A skippable prompt never reports a cancellation as an error: it ends
/// without an answer exactly when the prompt was canceled, and it keeps every
/// answer and every other error.
pub proof fn law_skippable_never_canceled<T>(result: InquireResult<T>)
    ensures
        !(spec_skip_canceled(result) matches Err(InquireError::OperationCanceled)),
        spec_skip_canceled(result) matches Ok(None) <==> result matches Err(InquireError::OperationCanceled),
        result is Ok ==> spec_skip_canceled(result) == Ok::<Option<T>, InquireError>(Some(result->Ok_0)),
        (result is Err && !(result->Err_0 is OperationCanceled)) ==> spec_skip_canceled(result) == Err::<Option<T>, InquireError>(result->Err_0),
{
}

/// The indices below `n` that `keep` accepts, in increasing order.
pub open spec fn filtered_indices(keep: spec_fn(int) -> bool, n: nat) -> Seq<usize>
    decreases n,
{
    if n == 0 {
        Seq::empty()
    } else {
        let prev = filtered_indices(keep, (n - 1) as nat);
        if keep(n - 1) { prev.push((n - 1) as usize) } else { prev }
    }
}

/// Every index that `filtered_indices` returns is below `n`, they increase, and
/// exactly the accepted ones are there.
pub proof fn lemma_filtered_indices(keep: spec_fn(int) -> bool, n: nat)
    requires
        n <= usize::MAX,
    ensures
        forall|i: int| 0 <= i < filtered_indices(keep, n).len() ==> (#[trigger] filtered_indices(keep, n)[i]) < n,
        forall|i: int, j: int| 0 <= i < j < filtered_indices(keep, n).len() ==>
            filtered_indices(keep, n)[i] < filtered_indices(keep, n)[j],
        filtered_indices(keep, n).len() <= n,
    decreases n,
{
    if n > 0 {
        lemma_filtered_indices(keep, (n - 1) as nat);
        let prev = filtered_indices(keep, (n - 1) as nat);
        let s = filtered_indices(keep, n);
        assert forall|i: int, j: int| 0 <= i < j < s.len() implies s[i] < s[j] by {
            if keep(n - 1) {
                assert(s == prev.push((n - 1) as usize));
                if j < prev.len() {
                    assert(s[i] == prev[i] && s[j] == prev[j]);
                    assert(prev[i] < prev[j]);
                } else {
                    assert(s[i] == prev[i]);
                    assert(prev[i] < n - 1);
                }
            } else {
                assert(s == prev);
                assert(prev[i] < prev[j]);
            }
        }
    }
}

/// Where the cursor lands after moving up `qty` rows in a list of `len`; with
/// `wrap`, moving past the top continues from the bottom.
pub open spec fn spec_cursor_up(cursor: usize, qty: usize, wrap: bool, len: nat) -> usize {
    if wrap {
        if cursor >= qty {
            (cursor - qty) as usize
        } else if len >= qty - cursor {
            (len - (qty - cursor)) as usize
        } else {
            0
        }
    } else if cursor >= qty {
        (cursor - qty) as usize
    } else {
        0
    }
}

/// Where the cursor lands after moving down `qty` rows in a list of `len`; with
/// `wrap`, moving past the bottom continues from the top, otherwise it stops at
/// the last row.
pub open spec fn spec_cursor_down(cursor: usize, qty: usize, wrap: bool, len: nat) -> usize {
    let moved: int = if cursor + qty <= usize::MAX { cursor + qty } else { usize::MAX as int };
    if moved < len {
        moved as usize
    } else if len == 0 {
        0
    } else if wrap {
        (moved % (len as int)) as usize
    } else {
        (len - 1) as usize
    }
}

/// Whether a cursor points at a row of a list of `len`, or at the start of an empty one.
pub open spec fn cursor_in_list(cursor: usize, len: nat) -> bool {
    if len == 0 { cursor == 0 } else { cursor < len }
}

/// Moving up keeps the cursor on a row.
pub proof fn lemma_cursor_up_in_list(cursor: usize, qty: usize, wrap: bool, len: nat)
    requires
        cursor_in_list(cursor, len),
    ensures
        cursor_in_list(spec_cursor_up(cursor, qty, wrap, len), len),
{
}

/// Moving down keeps the cursor on a row.
pub proof fn lemma_cursor_down_in_list(cursor: usize, qty: usize, wrap: bool, len: nat)
    requires
        len <= usize::MAX,
    ensures
        cursor_in_list(spec_cursor_down(cursor, qty, wrap, len), len),
{
}

/// Without wrap-around, moving down goes `qty` rows and stops on the last row:
/// the cursor never moves up, and it lands on the last row whenever the move
/// reaches or passes the end of the list.
pub proof fn law_cursor_down_stops_at_last_row(cursor: usize, qty: usize, len: nat)
    requires
        0 < len <= usize::MAX,
        cursor < len,
    ensures
        cursor <= spec_cursor_down(cursor, qty, false, len) < len,
        cursor + qty >= len ==> spec_cursor_down(cursor, qty, false, len) == len - 1,
        cursor + qty < len ==> spec_cursor_down(cursor, qty, false, len) == cursor + qty,
{
}

/// With wrap-around, moving down stays on a row, and a move that stays within
/// the list goes exactly `qty` rows.
pub proof fn law_cursor_down_wraps_within_list(cursor: usize, qty: usize, len: nat)
    requires
        0 < len <= usize::MAX,
        cursor < len,
    ensures
        spec_cursor_down(cursor, qty, true, len) < len,
        cursor + qty < len ==> spec_cursor_down(cursor, qty, true, len) == cursor + qty,
{
}

/// Without wrap-around, moving up goes `qty` rows and stops on the first row:
/// the cursor never moves down.
pub proof fn law_cursor_up_stops_at_first_row(cursor: usize, qty: usize, len: nat)
    requires
        cursor < len,
    ensures
        spec_cursor_up(cursor, qty, false, len) <= cursor,
        qty >= cursor ==> spec_cursor_up(cursor, qty, false, len) == 0,
        qty < cursor ==> spec_cursor_up(cursor, qty, false, len) + qty == cursor,
{
}

/// Moves a cursor up `qty` rows in a list of `len`.
pub fn cursor_up(cursor: usize, qty: usize, wrap: bool, len: usize) -> (r: usize)
    ensures
        r == spec_cursor_up(cursor, qty, wrap, len as nat),
{
    if wrap {
        let after_wrap = qty.saturating_sub(cursor);
        match cursor.checked_sub(qty) {
            Some(c) => c,
            None => len.saturating_sub(after_wrap),
        }
    } else {
        cursor.saturating_sub(qty)
    }
}

/// Moves a cursor down `qty` rows in a list of `len`.
pub fn cursor_down(cursor: usize, qty: usize, wrap: bool, len: usize) -> (r: usize)
    ensures
        r == spec_cursor_down(cursor, qty, wrap, len as nat),
{
    let moved = cursor.saturating_add(qty);
    if moved >= len {
        if len == 0 {
            0
        } else if wrap {
            moved % len
        } else {
            len.saturating_sub(1)
        }
    } else {
        moved
    }
}

} // verus!
