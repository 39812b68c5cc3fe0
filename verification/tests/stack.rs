use rwm::stack::Stack;

fn numbers(items: Vec<i32>) -> Stack<i32> {
    items.into()
}

#[test]
fn test() {
    let stack = Stack::new();
    let stack = stack.add(1);
    let stack = stack.add(2);
    let stack = stack.add(3);
    let stack = Stack::from_traversal(stack.into_traversal());
    let expected: Stack<i32> = vec![3, 2, 1].into();
    assert_eq!(expected, stack);
}

#[test]
fn new_stack_is_empty_and_unfocused() {
    let stack: Stack<i32> = Stack::new();
    assert_eq!(stack.len(), 0);
    assert!(stack.is_empty());
    assert_eq!(stack.current_index(), None);
    assert_eq!(stack.get_current(), None);
    assert_eq!(stack, Stack::default());
}

#[test]
fn from_vec_focuses_the_first_item() {
    let stack = numbers(vec![7, 8, 9]);
    assert_eq!(stack.len(), 3);
    assert_eq!(stack.current_index(), Some(0));
    assert_eq!(stack.get_current(), Some(&7));
    let empty = numbers(vec![]);
    assert_eq!(empty.current_index(), None);
}

#[test]
fn add_puts_the_item_at_the_focus_and_focuses_it() {
    let stack = numbers(vec![1, 2, 3]).set_current(1).add(9);
    assert_eq!(stack.into_traversal(), vec![(false, 1), (true, 9), (false, 2), (false, 3)]);
    let first = Stack::new().add(5);
    assert_eq!(first.into_traversal(), vec![(true, 5)]);
}

#[test]
fn next_and_previous_wrap_around() {
    let stack = numbers(vec![1, 2, 3]);
    assert_eq!(stack.current_index(), Some(0));
    let stack = stack.next();
    assert_eq!(stack.current_index(), Some(1));
    let stack = stack.next().next();
    assert_eq!(stack.current_index(), Some(0));
    let stack = stack.previous();
    assert_eq!(stack.current_index(), Some(2));
    let stack = stack.previous();
    assert_eq!(stack.current_index(), Some(1));
}

#[test]
fn rotation_on_empty_and_single_stacks_changes_nothing() {
    let empty: Stack<i32> = Stack::new();
    assert_eq!(empty.next().current_index(), None);
    let empty: Stack<i32> = Stack::new();
    assert_eq!(empty.previous().current_index(), None);
    assert_eq!(numbers(vec![4]).next(), numbers(vec![4]));
    assert_eq!(numbers(vec![4]).previous(), numbers(vec![4]));
}

#[test]
fn rotation_is_invertible() {
    for focus in 0..4 {
        let stack = numbers(vec![10, 20, 30, 40]).set_current(focus);
        let there_and_back = numbers(vec![10, 20, 30, 40]).set_current(focus).next().previous();
        assert_eq!(stack, there_and_back);
        let back_and_there = numbers(vec![10, 20, 30, 40]).set_current(focus).previous().next();
        assert_eq!(stack, back_and_there);
    }
}

#[test]
fn traversal_round_trips() {
    for focus in 0..3 {
        let stack = numbers(vec![5, 6, 7]).set_current(focus);
        let again = Stack::from_traversal(numbers(vec![5, 6, 7]).set_current(focus).into_traversal());
        assert_eq!(stack, again);
        assert_eq!(again.current_index(), Some(focus));
    }
    let empty: Stack<i32> = Stack::from_traversal(Stack::new().into_traversal());
    assert_eq!(empty, Stack::new());
}

#[test]
fn traversal_flags_only_the_focused_item() {
    let pairs = numbers(vec![1, 2, 3]).set_current(2).into_traversal();
    assert_eq!(pairs, vec![(false, 1), (false, 2), (true, 3)]);
}

#[test]
fn from_traversal_takes_the_last_flag_or_the_first_item() {
    let stack = Stack::from_traversal(vec![(true, 1), (false, 2), (true, 3), (false, 4)]);
    assert_eq!(stack.current_index(), Some(2));
    let unflagged = Stack::from_traversal(vec![(false, 1), (false, 2)]);
    assert_eq!(unflagged.current_index(), Some(0));
    assert_eq!(unflagged, numbers(vec![1, 2]));
    let empty: Stack<i32> = Stack::from_traversal(vec![]);
    assert_eq!(empty.current_index(), None);
}

#[test]
fn cursor_gives_the_items_in_order() {
    let mut cursor = numbers(vec![1, 2, 3]).set_current(1).into_iter();
    assert_eq!(cursor.len(), 3);
    assert_eq!(cursor.next(), Some((false, 1)));
    assert_eq!(cursor.next(), Some((true, 2)));
    assert_eq!(cursor.len(), 1);
    assert_eq!(cursor.next(), Some((false, 3)));
    assert_eq!(cursor.next(), None);
    assert_eq!(cursor.next(), None);
    assert_eq!(cursor.len(), 0);
}

#[test]
fn set_current_ignores_positions_out_of_range() {
    let stack = numbers(vec![1, 2, 3]).set_current(1);
    assert_eq!(stack.current_index(), Some(1));
    let stack = stack.set_current(3);
    assert_eq!(stack.current_index(), Some(1));
    let stack = stack.set_current(usize::MAX);
    assert_eq!(stack.current_index(), Some(1));
    let empty: Stack<i32> = Stack::new();
    assert_eq!(empty.set_current(0).current_index(), None);
}

#[test]
fn update_current_replaces_only_the_focused_item() {
    let stack = numbers(vec![1, 2, 3]).set_current(1).update_current(|item| item * 10);
    assert_eq!(stack.into_traversal(), vec![(false, 1), (true, 20), (false, 3)]);
    let empty: Stack<i32> = Stack::new();
    assert_eq!(empty.update_current(|item| item + 1), Stack::new());
}

#[test]
fn remove_by_takes_out_the_first_match_only() {
    let stack = numbers(vec![1, 2, 3, 2]).remove_by(|item| *item == 2);
    assert_eq!(stack.into_traversal(), vec![(true, 1), (false, 3), (false, 2)]);
}

#[test]
fn remove_by_without_match_changes_nothing() {
    let stack = numbers(vec![1, 2, 3]).set_current(2).remove_by(|item| *item == 9);
    assert_eq!(stack, numbers(vec![1, 2, 3]).set_current(2));
}

#[test]
fn remove_by_keeps_the_focus_in_range() {
    // the focused item is the last one and leaves: the focus moves to the new last item
    let stack = numbers(vec![1, 2, 3]).set_current(2).remove_by(|item| *item == 3);
    assert_eq!(stack.into_traversal(), vec![(false, 1), (true, 2)]);
    // an item before the focused last item leaves: the focus stays on the last item
    let stack = numbers(vec![1, 2, 3]).set_current(2).remove_by(|item| *item == 1);
    assert_eq!(stack.into_traversal(), vec![(false, 2), (true, 3)]);
    // the focused item in the middle leaves: the focus keeps its position
    let stack = numbers(vec![1, 2, 3]).set_current(1).remove_by(|item| *item == 2);
    assert_eq!(stack.into_traversal(), vec![(false, 1), (true, 3)]);
}

#[test]
fn remove_by_of_the_only_item_leaves_no_focus() {
    let stack = numbers(vec![1]).remove_by(|item| *item == 1);
    assert!(stack.is_empty());
    assert_eq!(stack.current_index(), None);
    assert_eq!(stack, Stack::new());
}

#[test]
fn get_reads_by_position() {
    let stack = numbers(vec![4, 5]);
    assert_eq!(stack.get(0), Some(&4));
    assert_eq!(stack.get(1), Some(&5));
    assert_eq!(stack.get(2), None);
}

#[test]
fn a_stack_reads_as_its_items() {
    let stack = numbers(vec![4, 5, 6]);
    let items: Vec<i32> = stack.iter().copied().collect();
    assert_eq!(items, vec![4, 5, 6]);
    assert_eq!(stack[2], 6);
}

#[test]
fn clone_keeps_items_and_focus() {
    let stack = numbers(vec![4, 5, 6]).set_current(1);
    assert_eq!(stack.clone(), stack);
    assert_eq!(stack.clone().current_index(), Some(1));
}
