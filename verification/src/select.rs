//! A filterable single-select control for branch names.
//!
//! The control is `Idle` while no text is entered, `Filtering` while free
//! text is present (the host widget narrows the option list by substring
//! match), and `Selected` once an option is chosen. Editing the input after
//! a choice returns to `Filtering`: text that no longer matches the chosen
//! option's label clears the selection.

use vstd::prelude::*;
use vstd::string::StringExecFns;

verus! {

/// One choice offered by a [`Select`] control.
#[derive(Debug, Clone, PartialEq, Eq)]
pub struct SelectOption {
    pub id: usize,
    pub label: String,
}

/// An event raised by the control: the input text changed, or an option
/// was chosen from the narrowed list.
#[derive(Debug, Clone)]
pub enum Message {
    InputChanged(String),
    OptionSelected(SelectOption),
}

/// State of the control: the full option list, the chosen option if any,
/// the free text in the input, and a caption.
#[derive(Debug, Clone)]
pub struct Select {
    pub options: Vec<SelectOption>,
    pub selected_item: Option<SelectOption>,
    pub input_value: String,
    pub label: String,
}

/// The phases the control moves through.
#[derive(Debug, PartialEq, Eq, Structural)]
pub enum SelectMode {
    Idle,
    Filtering,
    Selected,
}

/// Whether an already chosen option survives the input text becoming
/// `text`: only when the text still equals its label.
pub open spec fn keeps_selection(selected: Option<SelectOption>, text: Seq<char>) -> bool {
    match selected {
        Some(item) => item.label@ == text,
        None => false,
    }
}

/// The state after `message` is applied to `s`.
pub open spec fn select_step(s: Select, message: Message) -> Select {
    match message {
        Message::InputChanged(value) => Select {
            options: s.options,
            selected_item: if keeps_selection(s.selected_item, value@) {
                s.selected_item
            } else {
                None
            },
            input_value: value,
            label: s.label,
        },
        Message::OptionSelected(item) => Select {
            options: s.options,
            selected_item: Some(item),
            input_value: item.label,
            label: s.label,
        },
    }
}

/// The phase `s` is in.
pub open spec fn select_mode(s: Select) -> SelectMode {
    if s.selected_item is Some {
        SelectMode::Selected
    } else if s.input_value@.len() > 0 {
        SelectMode::Filtering
    } else {
        SelectMode::Idle
    }
}

impl Select {
    /// A fresh control over `options`, with nothing entered and nothing
    /// chosen.
    pub fn new(options: Vec<SelectOption>, label: String) -> (s: Select)
        ensures
            s.options == options,
            s.selected_item is None,
            s.input_value@ == Seq::<char>::empty(),
            s.label == label,
    {
        Select { options, selected_item: None, input_value: String::new(), label }
    }

    /// Applies one event. Choosing an option records it and mirrors its
    /// label into the input; editing the input to text that differs from
    /// the chosen option's label clears the choice.
    pub fn update(&mut self, message: Message)
        ensures
            *final(self) == select_step(*old(self), message),
    {
        match message {
            Message::InputChanged(value) => {
                let keep = match &self.selected_item {
                    Some(item) => item.label == value,
                    None => false,
                };
                if !keep {
                    self.selected_item = None;
                }
                self.input_value = value;
            },
            Message::OptionSelected(item) => {
                let text = item.label.clone();
                self.selected_item = Some(item);
                self.input_value = text;
            },
        }
    }
}

/// What the host widget draws for a [`Select`]: a caption, the input's
/// placeholder, the chosen option's label if any, and a line naming the
/// current choice. The widget reads the option list from the control's
/// state itself and narrows it by its built-in substring filter.
#[derive(Debug)]
pub struct SelectView {
    pub label: String,
    pub placeholder: String,
    pub selected_label: Option<String>,
    pub selection_text: String,
}

/// How a rendered [`SelectView`] reflects the control `s`.
pub open spec fn select_view_matches(v: SelectView, s: Select) -> bool {
    &&& v.label == s.label
    &&& v.placeholder@ == "検索..."@
    &&& match s.selected_item {
        Some(item) => {
            &&& v.selected_label == Some(item.label)
            &&& v.selection_text@ == "選択中: "@ + item.label@
        },
        None => {
            &&& v.selected_label is None
            &&& v.selection_text@ == "選択中: "@ + "未選択"@
        },
    }
}

impl Select {
    /// What the widget draws for this control.
    pub fn view(&self) -> (v: SelectView)
        ensures
            select_view_matches(v, *self),
    {
        let selected_label = match &self.selected_item {
            Some(item) => Some(item.label.clone()),
            None => None,
        };
        let mut selection_text = "選択中: ".to_owned();
        match &selected_label {
            Some(label) => selection_text.append(label.as_str()),
            None => selection_text.append("未選択"),
        }
        SelectView {
            label: self.label.clone(),
            placeholder: "検索...".to_owned(),
            selected_label,
            selection_text,
        }
    }
}

/// Choosing option `x` records it and mirrors its label into the input;
/// then entering free text `y` that does not match `x`'s label clears the
/// choice again and keeps the text.
pub proof fn lemma_select_then_edit(s: Select, x: SelectOption, y: String)
    requires
        y@ != x.label@,
    ensures
        ({
            let chosen = select_step(s, Message::OptionSelected(x));
            let edited = select_step(chosen, Message::InputChanged(y));
            &&& chosen.selected_item == Some(x)
            &&& chosen.input_value == x.label
            &&& select_mode(chosen) == SelectMode::Selected
            &&& edited.selected_item is None
            &&& edited.input_value == y
        }),
{
}

} // verus!
