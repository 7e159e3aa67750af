use std::collections::HashMap;

use fastfile::error::{AppError, BAD_REQUEST, INTERNAL_SERVER_ERROR};
use fastfile::step::Step;
use fastfile::ui_state::{
    get_ui_state, reset_ui_state, update_ui_state, UiAction, UiEvent, UiStateResponse, UiStep,
};

/// Works the request off against a table in memory.
fn work_off(
    table: &mut HashMap<String, String>,
    mut step: UiStep,
) -> Result<UiStateResponse, AppError> {
    loop {
        let (state, action) = match step {
            Step::Ask(state, action) => (state, action),
            Step::Reply(reply) => return Ok(reply),
            Step::Refuse(error) => return Err(error),
        };
        let event = match action {
            UiAction::OpenStore => UiEvent::Done,
            UiAction::GetValue { key } => match table.get(&key) {
                Some(value) => UiEvent::Value { value: value.clone() },
                None => UiEvent::Failed { detail: "no rows".to_string() },
            },
            UiAction::SetValue { key, value, at } => {
                assert_eq!(at, "now");
                table.insert(key, value);
                UiEvent::Done
            }
            UiAction::DeleteKey { key } => {
                table.remove(&key);
                UiEvent::Done
            }
        };
        assert!(state.accepts(&event));
        step = state.next(event, "now");
    }
}

fn heights(chat: Option<i64>, input: Option<i64>) -> UiStateResponse {
    UiStateResponse { chat_height_px: chat, input_height_px: input }
}

#[test]
fn heights_are_kept_until_reset() {
    let mut table = HashMap::new();
    assert_eq!(work_off(&mut table, get_ui_state()), Ok(heights(None, None)));
    assert_eq!(
        work_off(&mut table, update_ui_state(Some(320), Some(900))),
        Ok(heights(Some(320), Some(900)))
    );
    assert_eq!(
        work_off(&mut table, update_ui_state(None, Some(110))),
        Ok(heights(Some(320), Some(110)))
    );
    assert_eq!(
        work_off(&mut table, update_ui_state(Some(2000), None)),
        Ok(heights(Some(2000), Some(110)))
    );
    assert_eq!(work_off(&mut table, get_ui_state()), Ok(heights(Some(2000), Some(110))));
    assert_eq!(table["chat_height_px"], "2000");
    assert_eq!(work_off(&mut table, reset_ui_state()), Ok(heights(None, None)));
    assert_eq!(work_off(&mut table, get_ui_state()), Ok(heights(None, None)));
}

#[test]
fn heights_out_of_range_are_refused() {
    let mut table = HashMap::new();
    let chat = AppError { status: BAD_REQUEST, message: "聊天区高度超出范围".to_string() };
    for height in [319, 2001, -1] {
        let answer = work_off(&mut table, update_ui_state(Some(height), Some(200)));
        assert_eq!(answer.unwrap_err(), chat);
        assert!(table.is_empty());
    }
    for height in [109, 901] {
        let answer = work_off(&mut table, update_ui_state(Some(400), Some(height)));
        let error = answer.unwrap_err();
        assert_eq!((error.status, error.message.as_str()), (BAD_REQUEST, "输入框高度超出范围"));
        assert_eq!(table["chat_height_px"], "400");
        assert_eq!(table.len(), 1);
    }
}

#[test]
fn value_that_is_no_number_counts_as_none() {
    let mut table = HashMap::new();
    table.insert("chat_height_px".to_string(), "tall".to_string());
    table.insert("input_height_px".to_string(), "+150".to_string());
    assert_eq!(work_off(&mut table, get_ui_state()), Ok(heights(None, Some(150))));
}

#[test]
fn failures_of_the_table_are_told() {
    let fail = || UiEvent::Failed { detail: "disk".to_string() };
    let told = |step: UiStep, message: &str| {
        assert_eq!(
            step,
            Step::Refuse(AppError {
                status: INTERNAL_SERVER_ERROR,
                message: message.to_string(),
            })
        );
    };
    let Step::Ask(state, _) = get_ui_state() else { panic!() };
    told(state.next(fail(), "now"), "数据库打开失败: disk");

    let Step::Ask(state, _) = update_ui_state(Some(400), Some(200)) else { panic!() };
    let Step::Ask(state, _) = state.next(UiEvent::Done, "now") else { panic!() };
    told(state.next(fail(), "now"), "保存界面状态失败: disk");

    let Step::Ask(state, _) = reset_ui_state() else { panic!() };
    let Step::Ask(state, _) = state.next(UiEvent::Done, "now") else { panic!() };
    told(state.next(fail(), "now"), "重置界面状态失败: disk");
}

#[test]
fn events_that_are_not_waited_for_are_not_accepted() {
    let Step::Ask(state, _) = get_ui_state() else { panic!() };
    assert!(!state.accepts(&UiEvent::Value { value: "1".to_string() }));
    let Step::Ask(state, _) = state.next(UiEvent::Done, "now") else { panic!() };
    assert!(!state.accepts(&UiEvent::Done));
    assert!(state.accepts(&UiEvent::Value { value: "1".to_string() }));
}
