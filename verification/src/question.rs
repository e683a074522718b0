//! Questions that the model puts to the user.
//!
//! Each question of a request becomes one confirmation card. Its choices are the
//! labels that the server offers, and every card can be rejected. The answers are
//! gathered until each question of the request has one.
use vstd::prelude::*;

use crate::collections::set_has;
use crate::events::{field_truth, get_bool, str_or, text_or};
use crate::json::{trees, Json, JsonV, Obj};
use crate::text::{
    begins, cat3, cat4, chars_of, dec, decimal_round_trip, last_index, parse_unsigned, rfind_char,
    starts_with, string_between, strip_prefix, u64_dec, unsigned_text,
};
use crate::types::{
    copy_opt, copy_strings, own_opt, Confirmation, ConfirmationOption, ConfirmationOptionV, ConfirmationV,
};

verus! {

/// The value of the choice that rejects a question.
pub const QUESTION_REJECT_VALUE: &'static str = "__question_reject__";

/// The value of the choice that accepts every offered option.
pub const QUESTION_ALL_VALUE: &'static str = "__question_all__";

/// The value of the choice that stands for a typed answer.
pub const QUESTION_FREEFORM_VALUE: &'static str = "__question_freeform__";

/// One question of a request.
#[derive(Debug, PartialEq, Eq)]
pub struct ParsedQuestion {
    pub header: String,
    pub question: String,
    /// The offered labels, each with its description.
    pub options: Vec<(String, String)>,
    pub multiple: bool,
    pub custom: bool,
    /// Whether a typed answer is to be masked; only where `custom`.
    pub secret: bool,
}

/// Model of [`ParsedQuestion`].
pub struct ParsedQuestionV {
    pub header: Seq<char>,
    pub question: Seq<char>,
    pub options: Seq<(Seq<char>, Seq<char>)>,
    pub multiple: bool,
    pub custom: bool,
    pub secret: bool,
}

impl View for ParsedQuestion {
    type V = ParsedQuestionV;

    open spec fn view(&self) -> ParsedQuestionV {
        ParsedQuestionV {
            header: self.header.deep_view(),
            question: self.question.deep_view(),
            options: self.options.deep_view(),
            multiple: self.multiple.deep_view(),
            custom: self.custom.deep_view(),
            secret: self.secret.deep_view(),
        }
    }
}

impl DeepView for ParsedQuestion {
    type V = ParsedQuestionV;

    open spec fn deep_view(&self) -> ParsedQuestionV {
        self@
    }
}

/// A request for answers.
#[derive(Debug, PartialEq, Eq)]
pub struct ParsedQuestionRequest {
    pub request_id: String,
    pub session_id: Option<String>,
    pub questions: Vec<ParsedQuestion>,
}

/// Model of [`ParsedQuestionRequest`].
pub struct ParsedQuestionRequestV {
    pub request_id: Seq<char>,
    pub session_id: Option<Seq<char>>,
    pub questions: Seq<ParsedQuestionV>,
}

impl View for ParsedQuestionRequest {
    type V = ParsedQuestionRequestV;

    open spec fn view(&self) -> ParsedQuestionRequestV {
        ParsedQuestionRequestV {
            request_id: self.request_id.deep_view(),
            session_id: self.session_id.deep_view(),
            questions: self.questions.deep_view(),
        }
    }
}

impl DeepView for ParsedQuestionRequest {
    type V = ParsedQuestionRequestV;

    open spec fn deep_view(&self) -> ParsedQuestionRequestV {
        self@
    }
}

/// A request whose answers are being gathered.
#[derive(Debug, PartialEq, Eq)]
pub struct PendingQuestion {
    pub request_id: String,
    pub session_id: Option<String>,
    /// One slot for each question; `None` until it is answered.
    pub answers: Vec<Option<Vec<String>>>,
    /// The labels that the choice of all of them stands for; none for a question that
    /// does not offer it.
    pub labels: Vec<Vec<String>>,
}

/// Model of [`PendingQuestion`].
pub struct PendingQuestionV {
    pub request_id: Seq<char>,
    pub session_id: Option<Seq<char>>,
    pub answers: Seq<Option<Seq<Seq<char>>>>,
    pub labels: Seq<Seq<Seq<char>>>,
}

impl View for PendingQuestion {
    type V = PendingQuestionV;

    open spec fn view(&self) -> PendingQuestionV {
        PendingQuestionV {
            request_id: self.request_id.deep_view(),
            session_id: self.session_id.deep_view(),
            answers: self.answers.deep_view(),
            labels: self.labels.deep_view(),
        }
    }
}

impl DeepView for PendingQuestion {
    type V = PendingQuestionV;

    open spec fn deep_view(&self) -> PendingQuestionV {
        self@
    }
}

/// The labels of a question's options.
pub open spec fn labels_of(q: ParsedQuestionV) -> Seq<Seq<char>> {
    q.options.map_values(|o: (Seq<char>, Seq<char>)| o.0)
}

/// The labels of a question's options.
fn option_labels(q: &ParsedQuestion) -> (r: Vec<String>)
    ensures
        r.deep_view() == labels_of(q@),
{
    let mut out: Vec<String> = Vec::new();
    let mut i: usize = 0;
    while i < q.options.len()
        invariant
            i <= q.options.len(),
            out.len() == i,
            forall|k: int| 0 <= k < i ==> (#[trigger] out@[k])@ == q.options@[k].0@,
        decreases q.options.len() - i,
    {
        out.push(q.options[i].0.clone());
        i += 1;
    }
    assert(out.deep_view() =~= labels_of(q@));
    out
}

/// The labels that the choice of all of them stands for: only a question that takes
/// several answers offers it.
pub open spec fn all_labels_of(q: ParsedQuestionV) -> Seq<Seq<char>> {
    if q.multiple {
        labels_of(q)
    } else {
        Seq::empty()
    }
}

fn all_labels(q: &ParsedQuestion) -> (r: Vec<String>)
    ensures
        r.deep_view() == all_labels_of(q@),
{
    if q.multiple {
        option_labels(q)
    } else {
        let none: Vec<String> = Vec::new();
        assert(none.deep_view() =~= Seq::<Seq<char>>::empty());
        none
    }
}

/// A request that nothing has been answered of.
pub open spec fn unanswered(req: ParsedQuestionRequestV) -> PendingQuestionV {
    PendingQuestionV {
        request_id: req.request_id,
        session_id: req.session_id,
        answers: Seq::new(req.questions.len(), |i: int| None),
        labels: req.questions.map_values(|q: ParsedQuestionV| all_labels_of(q)),
    }
}

impl PendingQuestionV {
    /// The request with the answer to question `index`.
    pub open spec fn recorded(self, index: int, labels: Seq<Seq<char>>) -> PendingQuestionV {
        if 0 <= index < self.answers.len() {
            PendingQuestionV { answers: self.answers.update(index, Some(labels)), ..self }
        } else {
            self
        }
    }

    /// Whether every question has its answer.
    pub open spec fn complete(self) -> bool {
        self.answers.len() > 0 && forall|i: int|
            0 <= i < self.answers.len() ==> (#[trigger] self.answers[i]) is Some
    }

    /// The answers, one list for each question.
    pub open spec fn matrix(self) -> Seq<Seq<Seq<char>>> {
        self.answers.map_values(
            |a: Option<Seq<Seq<char>>>|
                match a {
                    Some(l) => l,
                    None => Seq::empty(),
                },
        )
    }

    /// The answer that the chosen values stand for: every label where the question
    /// offers the choice of all of them and it is among the values, and the values
    /// themselves otherwise.
    pub open spec fn answer_for(self, index: int, chosen: Seq<Seq<char>>) -> Seq<Seq<char>> {
        if chosen.contains(QUESTION_ALL_VALUE@) && 0 <= index < self.labels.len()
            && self.labels[index].len() > 0 {
            self.labels[index]
        } else {
            chosen
        }
    }
}

impl PendingQuestion {
    /// A request that nothing has been answered of.
    pub fn new(req: &ParsedQuestionRequest) -> (r: PendingQuestion)
        ensures
            r@ == unanswered(req@),
    {
        let mut answers: Vec<Option<Vec<String>>> = Vec::new();
        let mut labels: Vec<Vec<String>> = Vec::new();
        let mut i: usize = 0;
        while i < req.questions.len()
            invariant
                i <= req.questions.len(),
                answers.len() == i,
                labels.len() == i,
                forall|k: int| 0 <= k < i ==> (#[trigger] answers@[k]) is None,
                forall|k: int|
                    0 <= k < i ==> (#[trigger] labels@[k]).deep_view() == all_labels_of(
                        req.questions@[k]@,
                    ),
            decreases req.questions.len() - i,
        {
            answers.push(None);
            labels.push(all_labels(&req.questions[i]));
            i += 1;
        }
        let r = PendingQuestion {
            request_id: req.request_id.clone(),
            session_id: copy_opt(&req.session_id),
            answers,
            labels,
        };
        proof {
            assert(r@.answers =~= unanswered(req@).answers);
            assert(r@.labels =~= unanswered(req@).labels);
        }
        r
    }

    /// Records the answer to question `index`; nothing happens where there is no
    /// such question. Tells whether the slot was empty before.
    pub fn record(&mut self, index: usize, labels: Vec<String>) -> (r: bool)
        ensures
            final(self)@ == old(self)@.recorded(index as int, labels.deep_view()),
            r == (index < old(self)@.answers.len() && old(self)@.answers[index as int] is None),
    {
        let ghost before = self@;
        if index < self.answers.len() {
            let was_empty = self.answers[index].is_none();
            assert(before.answers[index as int] == self.answers@[index as int].deep_view());
            self.answers.set(index, Some(labels));
            assert(self@.answers =~= before.answers.update(index as int, Some(labels.deep_view())));
            was_empty
        } else {
            false
        }
    }

    /// Whether every question has its answer.
    pub fn is_complete(&self) -> (r: bool)
        ensures
            r == self@.complete(),
    {
        if self.answers.len() == 0 {
            return false;
        }
        let mut i: usize = 0;
        while i < self.answers.len()
            invariant
                i <= self.answers.len(),
                forall|k: int| 0 <= k < i ==> (#[trigger] self@.answers[k]) is Some,
            decreases self.answers.len() - i,
        {
            assert(self@.answers[i as int] == self.answers@[i as int].deep_view());
            if self.answers[i].is_none() {
                return false;
            }
            i += 1;
        }
        true
    }

    /// The answers, one list for each question.
    pub fn collected(&self) -> (r: Vec<Vec<String>>)
        ensures
            r.deep_view() == self@.matrix(),
    {
        let mut out: Vec<Vec<String>> = Vec::new();
        let mut i: usize = 0;
        while i < self.answers.len()
            invariant
                i <= self.answers.len(),
                out.len() == i,
                forall|k: int|
                    0 <= k < i ==> (#[trigger] out@[k]).deep_view() == self@.matrix()[k],
            decreases self.answers.len() - i,
        {
            assert(self@.answers[i as int] == self.answers@[i as int].deep_view());
            match &self.answers[i] {
                Some(l) => {
                    out.push(copy_strings(l));
                },
                None => {
                    let none: Vec<String> = Vec::new();
                    assert(none.deep_view() =~= Seq::<Seq<char>>::empty());
                    out.push(none);
                },
            }
            i += 1;
        }
        assert(out.deep_view() =~= self@.matrix());
        out
    }

    /// The answer that the chosen values stand for.
    pub fn answer(&self, index: usize, chosen: &Vec<String>) -> (r: Vec<String>)
        ensures
            r.deep_view() == self@.answer_for(index as int, chosen.deep_view()),
    {
        proof {
            if index < self.labels.len() {
                assert(self@.labels[index as int] == self.labels@[index as int].deep_view());
            }
        }
        if set_has(chosen, QUESTION_ALL_VALUE) && index < self.labels.len()
            && self.labels[index].len() > 0 {
            copy_strings(&self.labels[index])
        } else {
            copy_strings(chosen)
        }
    }
}

/// A request is complete once each of its questions has been answered, and only
/// then.
pub proof fn answering_all_completes(p: PendingQuestionV, index: int, labels: Seq<Seq<char>>)
    requires
        0 <= index < p.answers.len(),
    ensures
        p.recorded(index, labels).complete() == (forall|i: int|
            0 <= i < p.answers.len() && i != index ==> (#[trigger] p.answers[i]) is Some),
        p.recorded(index, labels).matrix()[index] == labels,
{
    let q = p.recorded(index, labels);
    assert(q.answers[index] is Some);
    if q.complete() {
        assert forall|i: int| 0 <= i < p.answers.len() && i != index implies (
        #[trigger] p.answers[i]) is Some by {
            assert(q.answers[i] is Some);
        }
    }
}

/// The option of a JSON value: none where it has no label.
pub open spec fn option_of(o: JsonV) -> Option<(Seq<char>, Seq<char>)> {
    match o.field_text("label"@) {
        Some(l) => Some((l, text_or(o.field_text("description"@), ""@))),
        None => None,
    }
}

/// The options of a list of JSON values, without those that have no label.
pub open spec fn options_of(a: Seq<JsonV>) -> Seq<(Seq<char>, Seq<char>)>
    decreases a.len(),
{
    if a.len() == 0 {
        Seq::empty()
    } else {
        match option_of(a.last()) {
            Some(o) => options_of(a.drop_last()).push(o),
            None => options_of(a.drop_last()),
        }
    }
}

/// The truth value under a key, `false` where there is none.
pub open spec fn flag(v: JsonV, key: Seq<char>) -> bool {
    field_truth(v, key) == Some(true)
}

/// The question of a JSON value.
pub open spec fn question_of(q: JsonV) -> ParsedQuestionV {
    ParsedQuestionV {
        header: text_or(q.field_text("header"@), ""@),
        question: text_or(q.field_text("question"@), ""@),
        options: match q.field_items("options"@) {
            Some(a) => options_of(a),
            None => Seq::empty(),
        },
        multiple: flag(q, "multiple"@),
        custom: flag(q, "custom"@),
        secret: flag(q, "secret"@) && flag(q, "custom"@),
    }
}

/// The request of a `question.asked` event: none where it has no id or no
/// question.
pub open spec fn question_request_of(props: JsonV) -> Option<ParsedQuestionRequestV> {
    match (props.field_text("id"@), props.field_items("questions"@)) {
        (Some(id), Some(qs)) => if qs.len() == 0 {
            None
        } else {
            Some(
                ParsedQuestionRequestV {
                    request_id: id,
                    session_id: props.field_text("sessionID"@),
                    questions: qs.map_values(|q: JsonV| question_of(q)),
                },
            )
        },
        _ => None,
    }
}

/// The truth value under a key, `false` where there is none.
pub fn get_flag(v: &Json, key: &str) -> (r: bool)
    ensures
        r == flag(v@, key@),
{
    match get_bool(v, key) {
        Some(b) => b,
        None => false,
    }
}

fn parse_options(a: &Vec<Json>) -> (r: Vec<(String, String)>)
    ensures
        r.deep_view() == options_of(trees(a@)),
{
    let ghost av = trees(a@);
    let mut out: Vec<(String, String)> = Vec::new();
    let mut i: usize = 0;
    proof {
        assert(av.take(0) =~= Seq::<JsonV>::empty());
        assert(out.deep_view() =~= Seq::<(Seq<char>, Seq<char>)>::empty());
    }
    while i < a.len()
        invariant
            i <= a.len(),
            av == trees(a@),
            out.deep_view() == options_of(av.take(i as int)),
        decreases a.len() - i,
    {
        let ghost ov = out.deep_view();
        assert(av.take(i as int + 1).drop_last() =~= av.take(i as int));
        assert(av.take(i as int + 1).last() == a@[i as int]@);
        match a[i].get_str("label") {
            Some(l) => {
                let d = str_or(a[i].get_str("description"), "");
                out.push((l.to_owned(), d.to_owned()));
                assert(out.deep_view() =~= ov.push((l@, d@)));
            },
            None => {},
        }
        i += 1;
    }
    assert(av.take(av.len() as int) =~= av);
    out
}

fn parse_question(q: &Json) -> (r: ParsedQuestion)
    ensures
        r@ == question_of(q@),
{
    let options: Vec<(String, String)> = match q.get_array("options") {
        Some(a) => parse_options(a),
        None => {
            let none: Vec<(String, String)> = Vec::new();
            assert(none.deep_view() =~= Seq::<(Seq<char>, Seq<char>)>::empty());
            none
        },
    };
    let custom = get_flag(q, "custom");
    ParsedQuestion {
        header: str_or(q.get_str("header"), "").to_owned(),
        question: str_or(q.get_str("question"), "").to_owned(),
        options,
        multiple: get_flag(q, "multiple"),
        custom,
        secret: get_flag(q, "secret") && custom,
    }
}

/// Reads the properties of a `question.asked` event.
pub fn parse_question_request(props: &Json) -> (r: Option<ParsedQuestionRequest>)
    ensures
        r.deep_view() == question_request_of(props@),
{
    let id = match props.get_str("id") {
        Some(id) => id,
        None => {
            return None;
        },
    };
    let raw = match props.get_array("questions") {
        Some(q) => q,
        None => {
            return None;
        },
    };
    if raw.len() == 0 {
        return None;
    }
    let mut questions: Vec<ParsedQuestion> = Vec::new();
    let mut i: usize = 0;
    while i < raw.len()
        invariant
            i <= raw.len(),
            questions.len() == i,
            forall|k: int| 0 <= k < i ==> (#[trigger] questions@[k])@ == question_of(raw@[k]@),
        decreases raw.len() - i,
    {
        questions.push(parse_question(&raw[i]));
        i += 1;
    }
    assert(questions.deep_view() =~= trees(raw@).map_values(|q: JsonV| question_of(q)));
    Some(
        ParsedQuestionRequest {
            request_id: id.to_owned(),
            session_id: own_opt(props.get_str("sessionID")),
            questions,
        },
    )
}

/// The id of the card for question `index` of a request.
pub open spec fn call_id_of(request_id: Seq<char>, index: nat) -> Seq<char> {
    "question-"@ + request_id + "-"@ + dec(index)
}

/// The id of the card for question `index` of a request.
pub fn question_call_id(request_id: &str, index: usize) -> (r: String)
    ensures
        r@ == call_id_of(request_id@, index as nat),
{
    let n = u64_dec(index as u64);
    cat4("question-", request_id, "-", n.as_str())
}

/// Whether an id is that of a question's card.
pub fn is_question_call_id(call_id: &str) -> (r: bool)
    ensures
        r == begins(call_id@, "question-"@),
{
    starts_with(call_id, "question-")
}

/// The request and the question that a card's id names: the part behind the
/// prefix, split at its last `-`.
pub open spec fn call_id_parts(call_id: Seq<char>) -> Option<(Seq<char>, nat)> {
    if !begins(call_id, "question-"@) {
        None
    } else {
        let rest = call_id.skip("question-"@.len() as int);
        match last_index(rest, '-') {
            None => None,
            Some(i) => match unsigned_text(rest.skip(i + 1), usize::MAX as nat) {
                Some(n) => if i == 0 {
                    None
                } else {
                    Some((rest.take(i), n))
                },
                None => None,
            },
        }
    }
}

/// Reads a card's id.
pub fn parse_question_call_id(call_id: &str) -> (r: Option<(String, usize)>)
    ensures
        match r {
            Some(p) => call_id_parts(call_id@) == Some((p.0@, p.1 as nat)),
            None => call_id_parts(call_id@) is None,
        },
{
    let rest = match strip_prefix(call_id, "question-") {
        Some(rest) => rest,
        None => {
            return None;
        },
    };
    let v = chars_of(rest.as_str());
    let at: usize = match rfind_char(&v, '-') {
        Some(i) => i,
        None => {
            return None;
        },
    };
    if at == 0 {
        return None;
    }
    let number = string_between(&v, at + 1, v.len());
    assert(number@ =~= rest@.skip(at as int + 1));
    match parse_unsigned(number.as_str(), usize::MAX as u64) {
        Some(n) => {
            let id = string_between(&v, 0, at);
            assert(id@ =~= rest@.take(at as int));
            Some((id, n as usize))
        },
        None => None,
    }
}

proof fn lemma_last_index_behind(s: Seq<char>, c: char, t: Seq<char>)
    requires
        forall|i: int| 0 <= i < t.len() ==> t[i] != c,
    ensures
        last_index(s.push(c) + t, c) == Some(s.len() as int),
    decreases t.len(),
{
    let w = s.push(c) + t;
    if t.len() == 0 {
        assert(w =~= s.push(c));
    } else {
        assert(w.last() == t.last());
        assert(w.drop_last() =~= s.push(c) + t.drop_last());
        lemma_last_index_behind(s, c, t.drop_last());
    }
}

/// A card's id gives its request and its question back, also where the request's
/// id itself holds a `-`.
pub proof fn call_id_round_trip(request_id: Seq<char>, index: nat)
    requires
        request_id.len() > 0,
        index <= usize::MAX,
    ensures
        begins(call_id_of(request_id, index), "question-"@),
        call_id_parts(call_id_of(request_id, index)) == Some((request_id, index)),
{
    let id = call_id_of(request_id, index);
    let p = "question-"@;
    let n = dec(index);
    decimal_round_trip(index);
    reveal_strlit("-");
    assert(id.take(p.len() as int) =~= p);
    let rest = id.skip(p.len() as int);
    assert(rest =~= request_id.push('-') + n);
    lemma_last_index_behind(request_id, '-', n);
    assert(rest.skip(request_id.len() as int + 1) =~= n);
    assert(rest.take(request_id.len() as int) =~= request_id);
    assert(n[0] != '+');
}

/// The choice that a label stands for.
pub open spec fn label_choice(label: Seq<char>) -> ConfirmationOptionV {
    ConfirmationOptionV { label, value: JsonV::Str(label), params: None }
}

/// A choice with a value of its own.
pub open spec fn plain_choice(label: Seq<char>, value: Seq<char>) -> ConfirmationOptionV {
    ConfirmationOptionV { label, value: JsonV::Str(value), params: None }
}

/// A choice with a value of its own.
pub fn make_choice(label: &str, value: &str) -> (r: ConfirmationOption)
    ensures
        r@ == plain_choice(label@, value@),
{
    ConfirmationOption { label: label.to_owned(), value: Json::string(value), params: None }
}

/// A choice with a value of its own and one parameter.
pub open spec fn choice_with(
    label: Seq<char>,
    value: Seq<char>,
    key: Seq<char>,
    param: Seq<char>,
) -> ConfirmationOptionV {
    ConfirmationOptionV { label, value: JsonV::Str(value), params: Some(seq![(key, param)]) }
}

/// A choice with a value of its own and one parameter.
pub fn make_choice_with(label: &str, value: &str, key: &str, param: &str) -> (r: ConfirmationOption)
    ensures
        r@ == choice_with(label@, value@, key@, param@),
{
    let mut params: Vec<(String, String)> = Vec::new();
    params.push((key.to_owned(), param.to_owned()));
    assert(params.deep_view() =~= seq![(key@, param@)]);
    ConfirmationOption { label: label.to_owned(), value: Json::string(value), params: Some(params) }
}

/// The choice of a typed answer.
pub open spec fn freeform_choice(secret: bool) -> ConfirmationOptionV {
    ConfirmationOptionV {
        label: "Type a custom answer"@,
        value: JsonV::Str(QUESTION_FREEFORM_VALUE@),
        params: Some(
            if secret {
                seq![("kind"@, "freeform"@), ("secret"@, "true"@)]
            } else {
                seq![("kind"@, "freeform"@)]
            },
        ),
    }
}

fn make_freeform(secret: bool) -> (r: ConfirmationOption)
    ensures
        r@ == freeform_choice(secret),
{
    let mut params: Vec<(String, String)> = Vec::new();
    params.push(("kind".to_owned(), "freeform".to_owned()));
    if secret {
        params.push(("secret".to_owned(), "true".to_owned()));
    }
    assert(params.deep_view() =~= freeform_choice(secret).params->0);
    ConfirmationOption {
        label: "Type a custom answer".to_owned(),
        value: Json::string(QUESTION_FREEFORM_VALUE),
        params: Some(params),
    }
}

/// The choices of a question's card.
pub open spec fn choices_of(q: ParsedQuestionV) -> Seq<ConfirmationOptionV> {
    let o = labels_of(q).map_values(|l: Seq<char>| label_choice(l));
    let o = if q.custom {
        o.push(freeform_choice(q.secret))
    } else {
        o
    };
    let o = if q.multiple && q.options.len() > 0 {
        o.push(plain_choice("All of the above"@, QUESTION_ALL_VALUE@))
    } else {
        o
    };
    o.push(plain_choice("Reject"@, QUESTION_REJECT_VALUE@))
}

/// The lines that tell the options' descriptions.
pub open spec fn option_lines(o: Seq<(Seq<char>, Seq<char>)>) -> Seq<char>
    decreases o.len(),
{
    if o.len() == 0 {
        Seq::empty()
    } else if o.last().1.len() == 0 {
        option_lines(o.drop_last())
    } else {
        option_lines(o.drop_last()) + ("\n• "@ + o.last().0 + " — "@ + o.last().1)
    }
}

/// The text of a question's card.
pub open spec fn card_text(q: ParsedQuestionV) -> Seq<char> {
    let t = q.question + option_lines(q.options);
    let t = if q.multiple {
        t + "\n(server allows multiple answers; pick one, several, or \"All\")"@
    } else {
        t
    };
    if q.custom {
        t + ("\n(server allows a custom answer"@ + (if q.secret {
            " (secret)"@
        } else {
            ""@
        }) + "; type your own or pick the closest option)"@)
    } else {
        t
    }
}

/// The card for question `index` of a request.
pub open spec fn card_of(req: ParsedQuestionRequestV, index: int) -> ConfirmationV {
    let q = req.questions[index];
    ConfirmationV {
        id: call_id_of(req.request_id, index as nat),
        call_id: call_id_of(req.request_id, index as nat),
        title: Some(
            if q.header.len() == 0 {
                "OpenCode question"@
            } else {
                q.header
            },
        ),
        action: Some("question"@),
        description: card_text(q),
        command_type: None,
        options: choices_of(q),
        session_id: req.session_id,
        parent_session_id: None,
    }
}

/// The cards of a request, one for each question.
pub open spec fn cards_of(req: ParsedQuestionRequestV) -> Seq<ConfirmationV> {
    Seq::new(req.questions.len(), |i: int| card_of(req, i))
}

fn question_choices(q: &ParsedQuestion) -> (r: Vec<ConfirmationOption>)
    ensures
        r.deep_view() == choices_of(q@),
{
    let mut out: Vec<ConfirmationOption> = Vec::new();
    let mut i: usize = 0;
    while i < q.options.len()
        invariant
            i <= q.options.len(),
            out.len() == i,
            forall|k: int| 0 <= k < i ==> (#[trigger] out@[k])@ == label_choice(q.options@[k].0@),
        decreases q.options.len() - i,
    {
        out.push(make_choice(q.options[i].0.as_str(), q.options[i].0.as_str()));
        i += 1;
    }
    let ghost base = labels_of(q@).map_values(|l: Seq<char>| label_choice(l));
    assert(out.deep_view() =~= base);
    if q.custom {
        let ghost before = out.deep_view();
        out.push(make_freeform(q.secret));
        assert(out.deep_view() =~= before.push(freeform_choice(q.secret)));
    }
    if q.multiple && q.options.len() > 0 {
        let ghost before = out.deep_view();
        out.push(make_choice("All of the above", QUESTION_ALL_VALUE));
        assert(out.deep_view() =~= before.push(
            plain_choice("All of the above"@, QUESTION_ALL_VALUE@),
        ));
    }
    let ghost before = out.deep_view();
    out.push(make_choice("Reject", QUESTION_REJECT_VALUE));
    assert(out.deep_view() =~= before.push(plain_choice("Reject"@, QUESTION_REJECT_VALUE@)));
    out
}

fn question_text(q: &ParsedQuestion) -> (r: String)
    ensures
        r@ == card_text(q@),
{
    let ghost ov = q@.options;
    let mut out = q.question.clone();
    let mut i: usize = 0;
    proof {
        assert(ov.take(0) =~= Seq::<(Seq<char>, Seq<char>)>::empty());
        assert(out@ =~= q@.question + option_lines(ov.take(0)));
    }
    while i < q.options.len()
        invariant
            i <= q.options.len(),
            ov == q.options.deep_view(),
            out@ == q@.question + option_lines(ov.take(i as int)),
        decreases q.options.len() - i,
    {
        proof {
            assert(ov.take(i as int + 1).drop_last() =~= ov.take(i as int));
            assert(ov.take(i as int + 1).last() == ov[i as int]);
            assert(ov[i as int] == (q.options@[i as int].0@, q.options@[i as int].1@));
        }
        if !q.options[i].1.as_str().is_empty() {
            let line = cat4("\n• ", q.options[i].0.as_str(), " — ", q.options[i].1.as_str());
            let ghost before = out@;
            out.append(line.as_str());
            assert(out@ =~= q@.question + (option_lines(ov.take(i as int)) + line@));
        }
        i += 1;
    }
    assert(ov.take(ov.len() as int) =~= ov);
    if q.multiple {
        out.append("\n(server allows multiple answers; pick one, several, or \"All\")");
    }
    if q.custom {
        let hint = if q.secret {
            " (secret)"
        } else {
            ""
        };
        let line = cat3(
            "\n(server allows a custom answer",
            hint,
            "; type your own or pick the closest option)",
        );
        out.append(line.as_str());
    }
    out
}

/// Builds one card for each question of a request.
pub fn build_question_confirmations(req: &ParsedQuestionRequest) -> (r: Vec<Confirmation>)
    ensures
        r.deep_view() == cards_of(req@),
{
    let mut out: Vec<Confirmation> = Vec::new();
    let mut i: usize = 0;
    while i < req.questions.len()
        invariant
            i <= req.questions.len(),
            out.len() == i,
            forall|k: int| 0 <= k < i ==> (#[trigger] out@[k])@ == card_of(req@, k),
        decreases req.questions.len() - i,
    {
        let q = &req.questions[i];
        assert(req@.questions[i as int] == q@);
        let call_id = question_call_id(req.request_id.as_str(), i);
        let title = if q.header.as_str().is_empty() {
            "OpenCode question".to_owned()
        } else {
            q.header.clone()
        };
        out.push(
            Confirmation {
                id: call_id.clone(),
                call_id,
                title: Some(title),
                action: Some("question".to_owned()),
                description: question_text(q),
                command_type: None,
                options: question_choices(q),
                session_id: copy_opt(&req.session_id),
                parent_session_id: None,
            },
        );
        i += 1;
    }
    assert(out.deep_view() =~= cards_of(req@));
    out
}

/// Every card can be rejected: the choice to do so is its last one.
pub proof fn cards_can_be_rejected(req: ParsedQuestionRequestV, index: int)
    requires
        0 <= index < req.questions.len(),
    ensures
        cards_of(req)[index].options.last() == plain_choice("Reject"@, QUESTION_REJECT_VALUE@),
{
}

/// The model of an answers matrix in JSON.
pub open spec fn matrix_json(answers: Seq<Seq<Seq<char>>>) -> JsonV {
    JsonV::Array(Seq::new(answers.len(), |i: int| crate::json::strings_v(answers[i])))
}

/// An answers matrix in JSON.
pub fn answers_json(answers: &Vec<Vec<String>>) -> (r: Json)
    ensures
        r@ == matrix_json(answers.deep_view()),
{
    let mut rows: Vec<Json> = Vec::new();
    let mut i: usize = 0;
    while i < answers.len()
        invariant
            i <= answers.len(),
            rows.len() == i,
            forall|k: int|
                0 <= k < i ==> (#[trigger] rows@[k])@ == crate::json::strings_v(
                    answers@[k].deep_view(),
                ),
        decreases answers.len() - i,
    {
        rows.push(Json::strings(&answers[i]));
        i += 1;
    }
    assert(trees(rows@) =~= matrix_json(answers.deep_view())->Array_0);
    Json::array(rows)
}

/// The URL and the body that answer a request.
pub fn build_question_reply_request(base_url: &str, request_id: &str, answers: &Vec<Vec<String>>) -> (r: (
    String,
    Json,
))
    ensures
        r.0@ == base_url@ + "/question/"@ + request_id@ + "/reply"@,
        r.1@ == JsonV::Object(seq![("answers"@, matrix_json(answers.deep_view()))]),
{
    let url = cat4(base_url, "/question/", request_id, "/reply");
    let body = Obj::new().put("answers", answers_json(answers)).build();
    (url, body)
}

/// The URL that refuses a request.
pub fn build_question_reject_url(base_url: &str, request_id: &str) -> (r: String)
    ensures
        r@ == base_url@ + "/question/"@ + request_id@ + "/reject"@,
{
    cat4(base_url, "/question/", request_id, "/reject")
}

} // verus!
