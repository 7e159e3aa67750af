//! What the heights of the page can be relied on for.
use vstd::prelude::*;

use crate::error::{refusal, Refusal, BAD_REQUEST};
use crate::step::{accepted, ends_as, refuses_with, run, Step};
use crate::store::Store;
use crate::text::{decimal_int, decimal_text_reads_back, parsed_i64};
use crate::ui_state::{chat_height_ok, chat_key, height_in, input_height_ok, input_key};
use crate::ui_state::{ui_accepts, ui_next, ui_start, UiAction, UiEvent, UiState};
use crate::ui_state::{UiStateResponse, UiStepModel, UiTask};

verus! {

/// What an action of a request about the heights does, and what comes back,
/// where the storage does what it is asked.
pub open spec fn perform_ui(store: Store, action: UiAction<Seq<char>>) -> (
    Store,
    UiEvent<Seq<char>>,
) {
    match action {
        UiAction::OpenStore => (store, UiEvent::Done),
        UiAction::GetValue { key } => if store.ui.contains_key(key) {
            (store, UiEvent::Value { value: store.ui[key] })
        } else {
            (store, UiEvent::Failed { detail: Seq::empty() })
        },
        UiAction::SetValue { key, value, at: _ } => (
            Store { ui: store.ui.insert(key, value), ..store },
            UiEvent::Done,
        ),
        UiAction::DeleteKey { key } => (
            Store { ui: store.ui.remove(key), ..store },
            UiEvent::Done,
        ),
    }
}

/// Where a request about the heights ends.
pub open spec fn run_ui(store: Store, task: UiTask, now: Seq<char>) -> (Store, UiStepModel) {
    run(
        store,
        ui_start(task),
        |store: Store, action: UiAction<Seq<char>>| perform_ui(store, action),
        |state: UiState, event: UiEvent<Seq<char>>| ui_next(state, event, now),
        5,
    )
}

/// A request about the heights meets no event that it does not wait for.
pub open spec fn ui_accepted(store: Store, task: UiTask, now: Seq<char>) -> bool {
    accepted(
        store,
        ui_start(task),
        |store: Store, action: UiAction<Seq<char>>| perform_ui(store, action),
        |state: UiState, event: UiEvent<Seq<char>>| ui_next(state, event, now),
        |state: UiState, event: UiEvent<Seq<char>>| ui_accepts(state, event),
        5,
    )
}

/// The height that is stored under the key.
pub open spec fn stored_height(store: Store, key: Seq<char>) -> Option<i64> {
    if store.ui.contains_key(key) {
        height_in(store.ui[key])
    } else {
        None
    }
}

/// The heights that are stored.
pub open spec fn stored_heights(store: Store) -> UiStateResponse {
    UiStateResponse {
        chat_height_px: stored_height(store, chat_key()),
        input_height_px: stored_height(store, input_key()),
    }
}

/// What is stored after a height was set, where one is given.
pub open spec fn with_height(store: Store, key: Seq<char>, height: Option<i64>) -> Store {
    match height {
        Some(height) => Store { ui: store.ui.insert(key, decimal_int(height as int)), ..store },
        None => store,
    }
}

proof fn keys_differ()
    ensures
        chat_key() != input_key(),
{
    reveal_strlit("chat_height_px");
    reveal_strlit("input_height_px");
    assert("chat_height_px"@.len() == 14);
    assert("input_height_px"@.len() == 15);
}

/// The heights that are shown are those that are stored.
pub proof fn show_gives_the_stored_heights(store: Store, now: Seq<char>)
    ensures
        ends_as(run_ui(store, UiTask::Show, now), (store, Ok(stored_heights(store)))),
        ui_accepted(store, UiTask::Show, now),
{
    reveal_with_fuel(run, 6);
    reveal_with_fuel(accepted, 6);
}

/// Heights that are allowed are kept: the answer tells them, they are shown from
/// then on, and a height that is not given stays as it was.
pub proof fn heights_are_kept(
    store: Store,
    chat_height_px: Option<i64>,
    input_height_px: Option<i64>,
    now: Seq<char>,
)
    requires
        chat_height_px matches Some(height) ==> chat_height_ok(height),
        input_height_px matches Some(height) ==> input_height_ok(height),
    ensures
        ({
            let task = UiTask::Update { chat_height_px, input_height_px };
            let after = with_height(
                with_height(store, chat_key(), chat_height_px),
                input_key(),
                input_height_px,
            );
            let before = stored_heights(store);
            let heights = stored_heights(after);
            &&& ends_as(run_ui(store, task, now), (after, Ok(heights)))
            &&& ui_accepted(store, task, now)
            &&& heights.chat_height_px == match chat_height_px {
                Some(height) => Some(height),
                None => before.chat_height_px,
            }
            &&& heights.input_height_px == match input_height_px {
                Some(height) => Some(height),
                None => before.input_height_px,
            }
        }),
{
    reveal_with_fuel(run, 6);
    reveal_with_fuel(accepted, 6);
    keys_differ();
    if let Some(height) = chat_height_px {
        decimal_text_reads_back(height);
    }
    if let Some(height) = input_height_px {
        decimal_text_reads_back(height);
    }
}

/// A height of the chat that is not allowed is refused, and nothing changes.
pub proof fn bad_chat_height_is_refused(
    store: Store,
    height: i64,
    input_height_px: Option<i64>,
    now: Seq<char>,
)
    requires
        !chat_height_ok(height),
    ensures
        ({
            let task = UiTask::Update { chat_height_px: Some(height), input_height_px };
            let effect = Err::<UiStateResponse, Refusal>(
                refusal(BAD_REQUEST, "聊天区高度超出范围"@),
            );
            &&& ends_as(run_ui(store, task, now), (store, effect))
            &&& ui_accepted(store, task, now)
        }),
{
    reveal_with_fuel(run, 6);
    reveal_with_fuel(accepted, 6);
}

/// A height of the input area that is not allowed is refused. A height of the
/// chat that came with it and is allowed was set before, and stays set.
pub proof fn bad_input_height_is_refused(
    store: Store,
    chat_height_px: Option<i64>,
    height: i64,
    now: Seq<char>,
)
    requires
        chat_height_px matches Some(height) ==> chat_height_ok(height),
        !input_height_ok(height),
    ensures
        ({
            let task = UiTask::Update { chat_height_px, input_height_px: Some(height) };
            let effect = Err::<UiStateResponse, Refusal>(
                refusal(BAD_REQUEST, "输入框高度超出范围"@),
            );
            &&& ends_as(
                run_ui(store, task, now),
                (with_height(store, chat_key(), chat_height_px), effect),
            )
            &&& ui_accepted(store, task, now)
        }),
{
    reveal_with_fuel(run, 6);
    reveal_with_fuel(accepted, 6);
}

/// A reset forgets both heights.
pub proof fn reset_forgets_the_heights(store: Store, now: Seq<char>)
    ensures
        ({
            let after = Store { ui: store.ui.remove(chat_key()).remove(input_key()), ..store };
            let none = UiStateResponse { chat_height_px: None, input_height_px: None };
            &&& ends_as(run_ui(store, UiTask::Reset, now), (after, Ok(none)))
            &&& ui_accepted(store, UiTask::Reset, now)
            &&& stored_heights(after) == none
        }),
{
    reveal_with_fuel(run, 6);
    reveal_with_fuel(accepted, 6);
}

/// The heights that are allowed: 320 to 2000 for the chat, 110 to 900 for the
/// input area.
pub proof fn heights_that_are_allowed(height: i64)
    ensures
        chat_height_ok(height) <==> 320 <= height <= 2000,
        input_height_ok(height) <==> 110 <= height <= 900,
{
}

/// Where heights are set, each that is given and allowed is written in decimal
/// under its name, and the answer and every later one tell it. The first that is
/// not allowed is refused. Nothing else changes.
pub proof fn heights_are_written_down(
    store: Store,
    chat: Option<i64>,
    input: Option<i64>,
    now: Seq<char>,
    later: Seq<char>,
)
    ensures
        ({
            let task = UiTask::Update { chat_height_px: chat, input_height_px: input };
            let (after, end) = run_ui(store, task, now);
            let shown = run_ui(after, UiTask::Show, later);
            let chat_ok = chat matches Some(height) ==> 320 <= height <= 2000;
            let input_ok = input matches Some(height) ==> 110 <= height <= 900;
            let chat_name = "chat_height_px"@;
            let input_name = "input_height_px"@;
            let with_chat = if chat is Some {
                store.ui.insert(chat_name, decimal_int(chat->0 as int))
            } else {
                store.ui
            };
            &&& !chat_ok ==> after == store && refuses_with(end, 400, "聊天区高度超出范围"@)
            &&& chat_ok && !input_ok ==> after == (Store { ui: with_chat, ..store })
                && refuses_with(end, 400, "输入框高度超出范围"@)
            &&& chat_ok && input_ok ==> {
                &&& input is Some ==> after == (Store {
                    ui: with_chat.insert(input_name, decimal_int(input->0 as int)),
                    ..store
                })
                &&& input is None ==> after == (Store { ui: with_chat, ..store })
                &&& end is Reply && shown.1 == end && shown.0 == after
                &&& end matches Step::Reply(answer) && {
                    &&& chat is Some ==> answer.chat_height_px == chat
                    &&& input is Some ==> answer.input_height_px == input
                    &&& chat is None ==> answer.chat_height_px == read_height(store, chat_name)
                    &&& input is None ==> answer.input_height_px == read_height(store, input_name)
                }
            }
        }),
{
    let chat_ok = chat matches Some(height) ==> 320 <= height <= 2000;
    let input_ok = input matches Some(height) ==> 110 <= height <= 900;
    let task = UiTask::Update { chat_height_px: chat, input_height_px: input };
    if !chat_ok {
        bad_chat_height_is_refused(store, chat->0, input, now);
    } else if !input_ok {
        bad_input_height_is_refused(store, chat, input->0, now);
    } else {
        heights_are_kept(store, chat, input, now);
        show_gives_the_stored_heights(run_ui(store, task, now).0, later);
    }
}

/// The number that is written under the name, if there is one.
pub open spec fn read_height(store: Store, name: Seq<char>) -> Option<i64> {
    if store.ui.contains_key(name) && parsed_i64(store.ui[name]) is Some {
        Some(parsed_i64(store.ui[name])->0 as i64)
    } else {
        None
    }
}

/// The heights that are shown are the numbers that are written under the two
/// names, and a reset forgets these two.
pub proof fn heights_are_read_from_their_names(store: Store, now: Seq<char>)
    ensures
        ({
            let (after, end) = run_ui(store, UiTask::Show, now);
            &&& after == store
            &&& end matches Step::Reply(answer) && answer.chat_height_px == read_height(
                store,
                "chat_height_px"@,
            ) && answer.input_height_px == read_height(store, "input_height_px"@)
        }),
        ({
            let (after, end) = run_ui(store, UiTask::Reset, now);
            &&& after.ui == store.ui.remove("chat_height_px"@).remove("input_height_px"@)
            &&& after == (Store { ui: after.ui, ..store })
            &&& end matches Step::Reply(answer) && answer.chat_height_px is None
                && answer.input_height_px is None
        }),
{
    show_gives_the_stored_heights(store, now);
    reset_forgets_the_heights(store, now);
}

} // verus!
