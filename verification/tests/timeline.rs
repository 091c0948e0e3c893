use meru::rewinding::visible_on_enter;
use meru::rewinding::AutoSavedState;
use meru::rewinding::RewindError;
use meru::rewinding::RewindStore;
use meru::rewinding::RewindingAction;
use meru::rewinding::RewindingInput;
use meru::rewinding::RewindingState;

fn store_of(n: u8) -> RewindStore {
    let mut store = RewindStore::new(1024, 1 << 20, 1);
    for tag in 0..n {
        store.push(AutoSavedState::new(vec![tag; 3], vec![tag; 5]));
    }
    store
}

fn input(left: bool, right: bool, confirm: bool, cancel: bool) -> RewindingInput {
    RewindingInput { left, right, confirm, cancel }
}

#[test]
fn timeline_opens_on_the_newest_record() {
    let store = store_of(6);
    assert_eq!(
        RewindingState::new(&store),
        Ok(RewindingState { pos: 5, load_pos: None, exit: false })
    );
    assert_eq!(RewindingState::new(&store_of(0)), Err(RewindError::EmptyHistory));
    assert_eq!(visible_on_enter(6), vec![5, 4, 3, 2]);
    assert_eq!(visible_on_enter(2), vec![1, 0]);
    assert_eq!(visible_on_enter(0), Vec::<usize>::new());
}

#[test]
fn timeline_moves_and_rewinds() {
    let mut store = store_of(6);
    let mut state = RewindingState::new(&store).unwrap();
    assert_eq!(
        state.step(&mut store, input(false, true, false, false)),
        Ok(RewindingAction::Stay)
    );
    assert_eq!(
        state.step(&mut store, input(true, false, false, false)),
        Ok(RewindingAction::Moved { pos: 4, enter_left: Some(1), enter_right: None })
    );
    assert_eq!(
        state.step(&mut store, input(true, false, false, false)),
        Ok(RewindingAction::Moved { pos: 3, enter_left: Some(0), enter_right: None })
    );
    assert_eq!(
        state.step(&mut store, input(true, false, false, false)),
        Ok(RewindingAction::Moved { pos: 2, enter_left: None, enter_right: None })
    );
    assert_eq!(
        state.step(&mut store, input(true, false, false, false)),
        Ok(RewindingAction::Moved { pos: 1, enter_left: None, enter_right: None })
    );
    assert_eq!(
        state.step(&mut store, input(false, true, false, false)),
        Ok(RewindingAction::Moved { pos: 2, enter_left: None, enter_right: Some(5) })
    );
    assert_eq!(
        state.step(&mut store, input(false, false, true, false)),
        Ok(RewindingAction::Stay)
    );
    assert_eq!(state, RewindingState { pos: 2, load_pos: Some(2), exit: false });
    assert_eq!(
        state.step(&mut store, input(true, true, true, true)),
        Ok(RewindingAction::Load(vec![2u8; 5]))
    );
    assert_eq!(store.len(), 3);
    assert!(state.exit);
    assert_eq!(
        state.step(&mut store, input(true, false, false, false)),
        Ok(RewindingAction::Exit)
    );
    assert_eq!(store.len(), 3);
}

#[test]
fn cancel_rewinds_to_the_newest_record() {
    let mut store = store_of(4);
    let mut state = RewindingState::new(&store).unwrap();
    state.step(&mut store, input(true, false, false, false)).unwrap();
    assert_eq!(
        state.step(&mut store, input(false, false, false, true)),
        Ok(RewindingAction::Stay)
    );
    assert_eq!(state.load_pos, Some(3));
    assert_eq!(
        state.step(&mut store, input(false, false, false, false)),
        Ok(RewindingAction::Load(vec![3u8; 5]))
    );
    assert_eq!(store.len(), 4);
}

#[test]
fn left_and_right_at_once_move_there_and_back() {
    let mut store = store_of(10);
    let mut state = RewindingState { pos: 5, load_pos: None, exit: false };
    assert_eq!(
        state.step(&mut store, input(true, true, false, false)),
        Ok(RewindingAction::Moved { pos: 5, enter_left: Some(1), enter_right: Some(8) })
    );
    assert_eq!(state.pos, 5);
}

#[test]
fn timeline_outside_the_history_is_an_error() {
    let mut store = store_of(2);
    let mut state = RewindingState { pos: 2, load_pos: None, exit: false };
    assert_eq!(
        state.step(&mut store, input(true, false, true, false)),
        Err(RewindError::OutOfRange)
    );
    assert_eq!(state, RewindingState { pos: 2, load_pos: None, exit: false });
    let mut state = RewindingState { pos: 0, load_pos: Some(7), exit: false };
    assert_eq!(
        state.step(&mut store, input(false, false, false, false)),
        Err(RewindError::OutOfRange)
    );
    assert_eq!(store.len(), 2);
}
