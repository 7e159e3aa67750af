//! The heights that the user gave the areas of the page.
use vstd::prelude::*;

use crate::error::{failure, refusal, AppError, Refusal, BAD_REQUEST};
use crate::step::Step;
use crate::text::{decimal_int, i64_text, parse_i64, parsed_i64};

verus! {

/// What is asked of the storage. `S` is the type of text.
#[derive(Debug, PartialEq, Eq)]
pub enum UiAction<S> {
    /// Open the database.
    OpenStore,
    /// Read the value of the key.
    GetValue { key: S },
    /// Set the value of the key.
    SetValue { key: S, value: S, at: S },
    /// Delete the key and its value.
    DeleteKey { key: S },
}

impl<S: DeepView> DeepView for UiAction<S> {
    type V = UiAction<S::V>;

    open spec fn deep_view(&self) -> Self::V {
        match self {
            UiAction::OpenStore => UiAction::OpenStore,
            UiAction::GetValue { key } => UiAction::GetValue { key: key.deep_view() },
            UiAction::SetValue { key, value, at } => UiAction::SetValue {
                key: key.deep_view(),
                value: value.deep_view(),
                at: at.deep_view(),
            },
            UiAction::DeleteKey { key } => UiAction::DeleteKey { key: key.deep_view() },
        }
    }
}

/// What comes of an action.
#[derive(Debug, PartialEq, Eq)]
pub enum UiEvent<S> {
    /// It is done.
    Done,
    /// It failed.
    Failed { detail: S },
    /// The value that was asked for.
    Value { value: S },
}

impl<S: DeepView> DeepView for UiEvent<S> {
    type V = UiEvent<S::V>;

    open spec fn deep_view(&self) -> Self::V {
        match self {
            UiEvent::Done => UiEvent::Done,
            UiEvent::Failed { detail } => UiEvent::Failed { detail: detail.deep_view() },
            UiEvent::Value { value } => UiEvent::Value { value: value.deep_view() },
        }
    }
}

/// The heights that are set, in pixels.
#[derive(Debug, PartialEq, Eq)]
pub struct UiStateResponse {
    pub chat_height_px: Option<i64>,
    pub input_height_px: Option<i64>,
}

impl DeepView for UiStateResponse {
    type V = UiStateResponse;

    open spec fn deep_view(&self) -> UiStateResponse {
        *self
    }
}

/// What a request wants of the heights.
#[derive(Debug, PartialEq, Eq)]
pub enum UiTask {
    Show,
    Update { chat_height_px: Option<i64>, input_height_px: Option<i64> },
    Reset,
}

/// The states of a request about the heights.
#[derive(Debug, PartialEq, Eq)]
pub enum UiState {
    Opening { task: UiTask },
    SavingChat { input_height_px: Option<i64> },
    SavingInput,
    ReadingChat,
    ReadingInput { chat_height_px: Option<i64> },
    DroppingChat,
    DroppingInput,
}

impl DeepView for UiState {
    type V = UiState;

    open spec fn deep_view(&self) -> UiState {
        *self
    }
}

pub type UiStep = Step<UiState, UiAction<String>, UiStateResponse, AppError>;

/// A step as a mathematical value.
pub type UiStepModel = Step<UiState, UiAction<Seq<char>>, UiStateResponse, Refusal>;

pub open spec fn chat_key() -> Seq<char> {
    "chat_height_px"@
}

pub open spec fn input_key() -> Seq<char> {
    "input_height_px"@
}

pub open spec fn chat_height_ok(height: i64) -> bool {
    320 <= height <= 2000
}

pub open spec fn input_height_ok(height: i64) -> bool {
    110 <= height <= 900
}

/// The height that a value stands for, `None` if it is no number.
pub open spec fn height_in(value: Seq<char>) -> Option<i64> {
    match parsed_i64(value) {
        Some(height) => Some(height as i64),
        None => None,
    }
}

/// The question for the height of the chat, from which on both are read.
pub open spec fn ask_chat() -> UiStepModel {
    Step::Ask(UiState::ReadingChat, UiAction::GetValue { key: chat_key() })
}

/// How a request goes on once the height of the chat is saved.
pub open spec fn save_input(input_height_px: Option<i64>, now: Seq<char>) -> UiStepModel {
    match input_height_px {
        Some(height) => if input_height_ok(height) {
            Step::Ask(
                UiState::SavingInput,
                UiAction::SetValue {
                    key: input_key(),
                    value: decimal_int(height as int),
                    at: now,
                },
            )
        } else {
            Step::Refuse(refusal(BAD_REQUEST, "输入框高度超出范围"@))
        },
        None => ask_chat(),
    }
}

/// How a request goes on that sets heights.
pub open spec fn save_heights(
    chat_height_px: Option<i64>,
    input_height_px: Option<i64>,
    now: Seq<char>,
) -> UiStepModel {
    match chat_height_px {
        Some(height) => if chat_height_ok(height) {
            Step::Ask(
                UiState::SavingChat { input_height_px },
                UiAction::SetValue { key: chat_key(), value: decimal_int(height as int), at: now },
            )
        } else {
            Step::Refuse(refusal(BAD_REQUEST, "聊天区高度超出范围"@))
        },
        None => save_input(input_height_px, now),
    }
}

/// How a request begins.
pub open spec fn ui_start(task: UiTask) -> UiStepModel {
    Step::Ask(UiState::Opening { task }, UiAction::OpenStore)
}

/// The state waits for such an event.
pub open spec fn ui_accepts(state: UiState, event: UiEvent<Seq<char>>) -> bool {
    match state {
        UiState::ReadingChat => event is Value || event is Failed,
        UiState::ReadingInput { .. } => event is Value || event is Failed,
        _ => event is Done || event is Failed,
    }
}

/// How the request goes on from `state` after `event`, at the time `now`.
pub open spec fn ui_next(state: UiState, event: UiEvent<Seq<char>>, now: Seq<char>) -> UiStepModel
    recommends
        ui_accepts(state, event),
{
    match state {
        UiState::Opening { task } => match event {
            UiEvent::Failed { detail } => Step::Refuse(failure("数据库打开失败: "@, detail)),
            _ => match task {
                UiTask::Show => ask_chat(),
                UiTask::Update { chat_height_px, input_height_px } => save_heights(
                    chat_height_px,
                    input_height_px,
                    now,
                ),
                UiTask::Reset => Step::Ask(
                    UiState::DroppingChat,
                    UiAction::DeleteKey { key: chat_key() },
                ),
            },
        },
        UiState::SavingChat { input_height_px } => match event {
            UiEvent::Failed { detail } => Step::Refuse(failure("保存界面状态失败: "@, detail)),
            _ => save_input(input_height_px, now),
        },
        UiState::SavingInput => match event {
            UiEvent::Failed { detail } => Step::Refuse(failure("保存界面状态失败: "@, detail)),
            _ => ask_chat(),
        },
        UiState::ReadingChat => Step::Ask(
            UiState::ReadingInput {
                chat_height_px: match event {
                    UiEvent::Value { value } => height_in(value),
                    _ => None,
                },
            },
            UiAction::GetValue { key: input_key() },
        ),
        UiState::ReadingInput { chat_height_px } => Step::Reply(
            UiStateResponse {
                chat_height_px,
                input_height_px: match event {
                    UiEvent::Value { value } => height_in(value),
                    _ => None,
                },
            },
        ),
        UiState::DroppingChat => match event {
            UiEvent::Failed { detail } => Step::Refuse(failure("重置界面状态失败: "@, detail)),
            _ => Step::Ask(UiState::DroppingInput, UiAction::DeleteKey { key: input_key() }),
        },
        UiState::DroppingInput => match event {
            UiEvent::Failed { detail } => Step::Refuse(failure("重置界面状态失败: "@, detail)),
            _ => Step::Reply(UiStateResponse { chat_height_px: None, input_height_px: None }),
        },
    }
}

/// How a request for the heights begins.
pub fn get_ui_state() -> (r: UiStep)
    ensures
        r.deep_view() == ui_start(UiTask::Show),
{
    Step::Ask(UiState::Opening { task: UiTask::Show }, UiAction::OpenStore)
}

/// How a request begins that sets one of the heights, or both.
pub fn update_ui_state(chat_height_px: Option<i64>, input_height_px: Option<i64>) -> (r: UiStep)
    ensures
        r.deep_view() == ui_start(UiTask::Update { chat_height_px, input_height_px }),
{
    Step::Ask(
        UiState::Opening { task: UiTask::Update { chat_height_px, input_height_px } },
        UiAction::OpenStore,
    )
}

/// How a request begins that forgets the heights.
pub fn reset_ui_state() -> (r: UiStep)
    ensures
        r.deep_view() == ui_start(UiTask::Reset),
{
    Step::Ask(UiState::Opening { task: UiTask::Reset }, UiAction::OpenStore)
}

/// The question for the height of the chat.
fn get_chat() -> (r: UiStep)
    ensures
        r.deep_view() == ask_chat(),
{
    Step::Ask(UiState::ReadingChat, UiAction::GetValue { key: "chat_height_px".to_owned() })
}

/// How a request goes on once the height of the chat is saved.
fn set_input(input_height_px: Option<i64>, now: &str) -> (r: UiStep)
    ensures
        r.deep_view() == save_input(input_height_px, now@),
{
    match input_height_px {
        Some(height) => if 110 <= height && height <= 900 {
            Step::Ask(
                UiState::SavingInput,
                UiAction::SetValue {
                    key: "input_height_px".to_owned(),
                    value: i64_text(height),
                    at: now.to_owned(),
                },
            )
        } else {
            Step::Refuse(AppError::new(BAD_REQUEST, "输入框高度超出范围"))
        },
        None => get_chat(),
    }
}

/// How a request goes on that sets heights.
fn set_heights(
    chat_height_px: Option<i64>,
    input_height_px: Option<i64>,
    now: &str,
) -> (r: UiStep)
    ensures
        r.deep_view() == save_heights(chat_height_px, input_height_px, now@),
{
    match chat_height_px {
        Some(height) => if 320 <= height && height <= 2000 {
            Step::Ask(
                UiState::SavingChat { input_height_px },
                UiAction::SetValue {
                    key: "chat_height_px".to_owned(),
                    value: i64_text(height),
                    at: now.to_owned(),
                },
            )
        } else {
            Step::Refuse(AppError::new(BAD_REQUEST, "聊天区高度超出范围"))
        },
        None => set_input(input_height_px, now),
    }
}

/// The height that came back, if any.
fn read_height(event: UiEvent<String>) -> (r: Option<i64>)
    ensures
        r == match event.deep_view() {
            UiEvent::Value { value } => height_in(value),
            _ => None,
        },
{
    match event {
        UiEvent::Value { value } => parse_i64(value.as_str()),
        _ => None,
    }
}

impl UiState {
    /// Whether the state waits for such an event.
    pub fn accepts(&self, event: &UiEvent<String>) -> (r: bool)
        ensures
            r == ui_accepts(self.deep_view(), event.deep_view()),
    {
        match self {
            UiState::ReadingChat | UiState::ReadingInput { .. } => matches!(
                event,
                UiEvent::Value { .. } | UiEvent::Failed { .. }
            ),
            _ => matches!(event, UiEvent::Done | UiEvent::Failed { .. }),
        }
    }

    /// How the request goes on after `event`, at the time `now`.
    pub fn next(self, event: UiEvent<String>, now: &str) -> (r: UiStep)
        requires
            ui_accepts(self.deep_view(), event.deep_view()),
        ensures
            r.deep_view() == ui_next(self.deep_view(), event.deep_view(), now@),
    {
        match self {
            UiState::Opening { task } => match event {
                UiEvent::Failed { detail } => Step::Refuse(
                    AppError::failed("数据库打开失败: ", detail.as_str()),
                ),
                _ => match task {
                    UiTask::Show => get_chat(),
                    UiTask::Update { chat_height_px, input_height_px } => set_heights(
                        chat_height_px,
                        input_height_px,
                        now,
                    ),
                    UiTask::Reset => Step::Ask(
                        UiState::DroppingChat,
                        UiAction::DeleteKey { key: "chat_height_px".to_owned() },
                    ),
                },
            },
            UiState::SavingChat { input_height_px } => match event {
                UiEvent::Failed { detail } => Step::Refuse(
                    AppError::failed("保存界面状态失败: ", detail.as_str()),
                ),
                _ => set_input(input_height_px, now),
            },
            UiState::SavingInput => match event {
                UiEvent::Failed { detail } => Step::Refuse(
                    AppError::failed("保存界面状态失败: ", detail.as_str()),
                ),
                _ => get_chat(),
            },
            UiState::ReadingChat => Step::Ask(
                UiState::ReadingInput { chat_height_px: read_height(event) },
                UiAction::GetValue { key: "input_height_px".to_owned() },
            ),
            UiState::ReadingInput { chat_height_px } => Step::Reply(
                UiStateResponse { chat_height_px, input_height_px: read_height(event) },
            ),
            UiState::DroppingChat => match event {
                UiEvent::Failed { detail } => Step::Refuse(
                    AppError::failed("重置界面状态失败: ", detail.as_str()),
                ),
                _ => Step::Ask(
                    UiState::DroppingInput,
                    UiAction::DeleteKey { key: "input_height_px".to_owned() },
                ),
            },
            UiState::DroppingInput => match event {
                UiEvent::Failed { detail } => Step::Refuse(
                    AppError::failed("重置界面状态失败: ", detail.as_str()),
                ),
                _ => Step::Reply(
                    UiStateResponse { chat_height_px: None, input_height_px: None },
                ),
            },
        }
    }
}

} // verus!
