//! The questions of an interactive setup and the answers to them.

use crate::text::same_text;
use vstd::prelude::*;

verus! {

/// An answer: free text, or the index of the option chosen.
#[derive(Debug)]
pub enum FieldValue {
    String(String),
    Integer(i64),
}

/// A [`FieldValue`] as contracts speak of it.
pub enum FieldAnswer {
    Text(Seq<char>),
    Index(int),
}

impl View for FieldValue {
    type V = FieldAnswer;

    open spec fn view(&self) -> FieldAnswer {
        match self {
            FieldValue::String(s) => FieldAnswer::Text(s@),
            FieldValue::Integer(i) => FieldAnswer::Index(*i as int),
        }
    }
}

impl FieldValue {
    /// Whether two answers are the same.
    pub fn same_as(&self, other: &FieldValue) -> (same: bool)
        ensures
            same == (self@ == other@),
    {
        match (self, other) {
            (FieldValue::String(a), FieldValue::String(b)) => same_text(a.as_str(), b.as_str()),
            (FieldValue::Integer(a), FieldValue::Integer(b)) => *a == *b,
            _ => false,
        }
    }
}

impl Clone for FieldValue {
    fn clone(&self) -> (copy: Self)
        ensures
            copy == *self,
    {
        match self {
            FieldValue::String(s) => FieldValue::String(s.clone()),
            FieldValue::Integer(i) => FieldValue::Integer(*i),
        }
    }
}

/// The answer that was given to the question of a name.
#[derive(Debug)]
pub struct Answer {
    pub field_name: String,
    pub value: FieldValue,
}

impl View for Answer {
    type V = (Seq<char>, FieldAnswer);

    open spec fn view(&self) -> (Seq<char>, FieldAnswer) {
        (self.field_name@, self.value@)
    }
}

/// Answers by name, in the order in which they were given.
pub open spec fn answers_view(answers: Seq<Answer>) -> Seq<(Seq<char>, FieldAnswer)> {
    answers.map_values(|answer: Answer| answer@)
}

/// The latest answer to the question of a name.
pub open spec fn latest_answer(
    answers: Seq<(Seq<char>, FieldAnswer)>,
    field_name: Seq<char>,
) -> Option<FieldAnswer>
    decreases answers.len(),
{
    if answers.len() == 0 {
        None
    } else if answers.last().0 == field_name {
        Some(answers.last().1)
    } else {
        latest_answer(answers.drop_last(), field_name)
    }
}

/// How a question is answered.
#[derive(Debug)]
pub enum FieldKind {
    /// Text that must be given.
    Input,
    /// Text that may be left blank.
    OptionalInput { default: Option<&'static str> },
    /// One of several options.
    Select { options: Vec<&'static str>, default_index: usize },
}

/// A [`FieldKind`] as contracts speak of it.
pub enum KindView {
    Input,
    OptionalInput { default: Option<Seq<char>> },
    Select { options: Seq<Seq<char>>, default_index: int },
}

impl View for FieldKind {
    type V = KindView;

    open spec fn view(&self) -> KindView {
        match self {
            FieldKind::Input => KindView::Input,
            FieldKind::OptionalInput { default } => KindView::OptionalInput {
                default: match *default {
                    Some(s) => Some(s@),
                    None => None,
                },
            },
            FieldKind::Select { options, default_index } => KindView::Select {
                options: options@.map_values(|option: &'static str| option@),
                default_index: *default_index as int,
            },
        }
    }
}

/// The question is put only if another one was answered in a certain way.
#[derive(Debug)]
pub struct FieldCondition {
    pub field_name: &'static str,
    pub value: FieldValue,
}

/// A question of the setup.
#[derive(Debug)]
pub struct ConfigField {
    pub name: &'static str,
    pub prompt: &'static str,
    pub kind: FieldKind,
    pub condition: Option<FieldCondition>,
}

/// A [`ConfigField`] as contracts speak of it.
pub struct FieldView {
    pub name: Seq<char>,
    pub prompt: Seq<char>,
    pub kind: KindView,
    pub condition: Option<(Seq<char>, FieldAnswer)>,
}

impl View for ConfigField {
    type V = FieldView;

    open spec fn view(&self) -> FieldView {
        FieldView {
            name: self.name@,
            prompt: self.prompt@,
            kind: self.kind@,
            condition: match self.condition {
                Some(condition) => Some((condition.field_name@, condition.value@)),
                None => None,
            },
        }
    }
}

impl FieldView {
    /// Whether the question is put after these answers.
    pub open spec fn is_asked(self, answers: Seq<(Seq<char>, FieldAnswer)>) -> bool {
        match self.condition {
            Some((field_name, value)) => latest_answer(answers, field_name) == Some(value),
            None => true,
        }
    }
}

impl ConfigField {
    /// A question that takes text.
    pub fn input(name: &'static str, prompt: &'static str) -> (field: Self)
        ensures
            field@ == (FieldView {
                name: name@,
                prompt: prompt@,
                kind: KindView::Input,
                condition: None,
            }),
    {
        ConfigField { name, prompt, kind: FieldKind::Input, condition: None }
    }

    /// A question that takes text and may be left blank.
    pub fn optional_input(
        name: &'static str,
        prompt: &'static str,
        default: Option<&'static str>,
    ) -> (field: Self)
        ensures
            field@ == (FieldView {
                name: name@,
                prompt: prompt@,
                kind: KindView::OptionalInput {
                    default: match default {
                        Some(s) => Some(s@),
                        None => None,
                    },
                },
                condition: None,
            }),
    {
        ConfigField { name, prompt, kind: FieldKind::OptionalInput { default }, condition: None }
    }

    /// A question with several options, one of them chosen beforehand.
    pub fn select(
        name: &'static str,
        prompt: &'static str,
        options: Vec<&'static str>,
        default_index: usize,
    ) -> (field: Self)
        ensures
            field@ == (FieldView {
                name: name@,
                prompt: prompt@,
                kind: KindView::Select {
                    options: options@.map_values(|option: &'static str| option@),
                    default_index: default_index as int,
                },
                condition: None,
            }),
    {
        ConfigField {
            name,
            prompt,
            kind: FieldKind::Select { options, default_index },
            condition: None,
        }
    }

    /// Puts the question only if another one was answered with the value.
    pub fn when_field_equals(self, field_name: &'static str, value: FieldValue) -> (field: Self)
        ensures
            field@ == (FieldView { condition: Some((field_name@, value@)), ..self@ }),
    {
        ConfigField { condition: Some(FieldCondition { field_name, value }), ..self }
    }

    /// Whether the question is put after these answers.
    pub fn is_asked(&self, answers: &Vec<Answer>) -> (asked: bool)
        ensures
            asked == self@.is_asked(answers_view(answers@)),
    {
        let condition = match &self.condition {
            Some(condition) => condition,
            None => return true,
        };
        let ghost given = answers_view(answers@);
        let ghost name = condition.field_name@;
        let mut i: usize = answers.len();
        assert(given.take(i as int) =~= given);
        while i > 0
            invariant
                i <= answers.len(),
                given == answers_view(answers@),
                name == condition.field_name@,
                self@.condition == Some((name, condition.value@)),
                latest_answer(given, name) == latest_answer(given.take(i as int), name),
            decreases i,
        {
            i = i - 1;
            proof {
                assert(given.take(i + 1).drop_last() =~= given.take(i as int));
                assert(given.take(i + 1).last() == answers@[i as int]@);
            }
            if same_text(answers[i].field_name.as_str(), condition.field_name) {
                return answers[i].value.same_as(&condition.value);
            }
        }
        false
    }
}

} // verus!
