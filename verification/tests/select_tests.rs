use change_shelf::select::{Message, Select, SelectOption};

fn options() -> Vec<SelectOption> {
    vec![
        SelectOption { id: 0, label: "main".to_string() },
        SelectOption { id: 1, label: "develop".to_string() },
    ]
}

#[test]
fn new_select_is_idle() {
    let s = Select::new(options(), "branch".to_string());
    assert!(s.selected_item.is_none());
    assert_eq!(s.input_value, "".to_string());
    assert_eq!(s.label, "branch".to_string());
    assert_eq!(s.options.len(), 2);
}

#[test]
fn selecting_then_typing_other_text_clears_the_choice() {
    let mut s = Select::new(options(), "branch".to_string());
    s.update(Message::OptionSelected(SelectOption { id: 1, label: "develop".to_string() }));
    assert_eq!(s.selected_item, Some(SelectOption { id: 1, label: "develop".to_string() }));
    assert_eq!(s.input_value, "develop".to_string());

    s.update(Message::InputChanged("dev".to_string()));
    assert!(s.selected_item.is_none());
    assert_eq!(s.input_value, "dev".to_string());
}

#[test]
fn retyping_the_chosen_label_keeps_the_choice() {
    let mut s = Select::new(options(), "branch".to_string());
    s.update(Message::OptionSelected(SelectOption { id: 0, label: "main".to_string() }));
    s.update(Message::InputChanged("main".to_string()));
    assert_eq!(s.selected_item, Some(SelectOption { id: 0, label: "main".to_string() }));
    assert_eq!(s.input_value, "main".to_string());
}

#[test]
fn typing_without_a_choice_just_records_the_text() {
    let mut s = Select::new(options(), "branch".to_string());
    s.update(Message::InputChanged("ma".to_string()));
    assert!(s.selected_item.is_none());
    assert_eq!(s.input_value, "ma".to_string());
}

#[test]
fn view_names_the_choice_or_the_placeholder_wording() {
    let mut s = Select::new(options(), "branch".to_string());
    let idle = s.view();
    assert_eq!(idle.label, "branch".to_string());
    assert_eq!(idle.placeholder, "検索...".to_string());
    assert!(idle.selected_label.is_none());
    assert_eq!(idle.selection_text, "選択中: 未選択".to_string());

    s.update(Message::OptionSelected(SelectOption { id: 0, label: "main".to_string() }));
    let chosen = s.view();
    assert_eq!(chosen.selected_label, Some("main".to_string()));
    assert_eq!(chosen.selection_text, "選択中: main".to_string());
}
