use byte_stack::session::open_session;
use byte_stack::session::Reply;
use byte_stack::session::Request;
use byte_stack::stack::StackError;
use byte_stack::stack::CAPACITY;

#[test]
fn scenario_push_five_push_nine_then_three_pops() {
    let mut session = open_session();
    assert_eq!(session.push(5), Ok(()));
    assert_eq!(session.push(9), Ok(()));
    assert_eq!(session.pop(), Ok(9));
    assert_eq!(session.pop(), Ok(5));
    assert_eq!(session.pop(), Err(StackError::Underflow));
}

#[test]
fn fresh_session_pop_underflows_and_changes_nothing() {
    let mut session = open_session();
    assert_eq!(session.pop(), Err(StackError::Underflow));
    // Still empty and still usable afterwards.
    assert_eq!(session.push(11), Ok(()));
    assert_eq!(session.pop(), Ok(11));
}

#[test]
fn session_capacity_and_overflow() {
    let mut session = open_session();
    for i in 0..CAPACITY {
        assert_eq!(session.push(i as u8), Ok(()));
    }
    assert_eq!(session.push(0), Err(StackError::Overflow));
    assert_eq!(session.pop(), Ok((CAPACITY - 1) as u8));
}

#[test]
fn sessions_are_isolated() {
    let mut first = open_session();
    let mut second = open_session();
    assert_eq!(first.push(42), Ok(()));
    // The second session never sees the first session's byte.
    assert_eq!(second.pop(), Err(StackError::Underflow));
    assert_eq!(second.push(7), Ok(()));
    // And the first still holds exactly its own byte.
    assert_eq!(first.pop(), Ok(42));
    assert_eq!(first.pop(), Err(StackError::Underflow));
    assert_eq!(second.pop(), Ok(7));
}

#[test]
fn serialized_batch_of_pushes_then_pops_drains_exactly() {
    let mut session = open_session();
    let pushed: Vec<u8> = (0u8..100).collect();
    for &value in &pushed {
        assert_eq!(session.push(value), Ok(()));
    }
    let mut popped: Vec<u8> = Vec::new();
    for _ in 0..pushed.len() {
        popped.push(session.pop().expect("a pushed byte must come back"));
    }
    // Exactly the pushed bytes, in reverse order: none lost, none doubled.
    let mut reversed = pushed.clone();
    reversed.reverse();
    assert_eq!(popped, reversed);
    // And the stack ends empty.
    assert_eq!(session.pop(), Err(StackError::Underflow));
}

#[test]
fn handle_routes_insert_and_pop() {
    let mut session = open_session();
    assert_eq!(session.handle(Request::Insert(5)), Ok(Reply::Inserted));
    assert_eq!(session.handle(Request::Insert(9)), Ok(Reply::Inserted));
    assert_eq!(session.handle(Request::Pop), Ok(Reply::Popped(9)));
    assert_eq!(session.handle(Request::Pop), Ok(Reply::Popped(5)));
    assert_eq!(session.handle(Request::Pop), Err(StackError::Underflow));
}

#[test]
fn handle_reports_overflow_when_full() {
    let mut session = open_session();
    for i in 0..CAPACITY {
        assert_eq!(session.handle(Request::Insert(i as u8)), Ok(Reply::Inserted));
    }
    assert_eq!(session.handle(Request::Insert(0)), Err(StackError::Overflow));
    assert_eq!(session.handle(Request::Pop), Ok(Reply::Popped((CAPACITY - 1) as u8)));
}
