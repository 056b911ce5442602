use keasyditor_core::undo_redo::UndoRedoStack;

#[test]
fn initial_state() {
    let stack = UndoRedoStack::new(42);
    assert_eq!(*stack.current(), 42);
    assert!(!stack.can_undo());
    assert!(!stack.can_redo());
}

#[test]
fn push_and_undo() {
    let mut stack = UndoRedoStack::new(1);
    stack.push(2);
    stack.push(3);

    assert_eq!(*stack.current(), 3);
    assert_eq!(stack.undo_count(), 2);

    assert_eq!(stack.undo(), Some(&2));
    assert_eq!(*stack.current(), 2);

    assert_eq!(stack.undo(), Some(&1));
    assert_eq!(*stack.current(), 1);

    assert_eq!(stack.undo(), None);
    assert_eq!(*stack.current(), 1);
}

#[test]
fn undo_and_redo() {
    let mut stack = UndoRedoStack::new(1);
    stack.push(2);
    stack.push(3);

    stack.undo();
    stack.undo();

    assert_eq!(stack.redo(), Some(&2));
    assert_eq!(*stack.current(), 2);

    assert_eq!(stack.redo(), Some(&3));
    assert_eq!(*stack.current(), 3);

    assert_eq!(stack.redo(), None);
}

#[test]
fn push_clears_redo() {
    let mut stack = UndoRedoStack::new(1);
    stack.push(2);
    stack.push(3);

    stack.undo();
    assert!(stack.can_redo());

    stack.push(4);
    assert!(!stack.can_redo());
    assert_eq!(*stack.current(), 4);

    stack.undo();
    assert_eq!(*stack.current(), 2);
}

#[test]
fn reset_clears_all() {
    let mut stack = UndoRedoStack::new(1);
    stack.push(2);
    stack.push(3);
    stack.undo();

    stack.reset(10);
    assert_eq!(*stack.current(), 10);
    assert!(!stack.can_undo());
    assert!(!stack.can_redo());
}

#[test]
fn with_strings() {
    let mut stack = UndoRedoStack::new("hello".to_string());
    stack.push("world".to_string());
    assert_eq!(stack.current(), "world");
    assert_eq!(stack.undo(), Some(&"hello".to_string()));
}

#[test]
fn counts() {
    let mut stack = UndoRedoStack::new(0);
    stack.push(1);
    stack.push(2);
    stack.push(3);

    assert_eq!(stack.undo_count(), 3);
    assert_eq!(stack.redo_count(), 0);

    stack.undo();
    assert_eq!(stack.undo_count(), 2);
    assert_eq!(stack.redo_count(), 1);

    stack.undo();
    assert_eq!(stack.undo_count(), 1);
    assert_eq!(stack.redo_count(), 2);
}

#[test]
fn undo_then_redo_restores_state() {
    let mut stack = UndoRedoStack::new(5);
    stack.push(6);
    stack.undo();
    stack.redo();
    assert_eq!(*stack.current(), 6);
    assert_eq!(stack.undo_count(), 1);
    assert_eq!(stack.redo_count(), 0);
}

#[test]
fn current_mut_edits_in_place() {
    let mut stack = UndoRedoStack::new(1);
    *stack.current_mut() = 9;
    assert_eq!(*stack.current(), 9);
    assert!(!stack.can_undo());
}
