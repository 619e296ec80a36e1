//! The setup fields of a SQL Server profile, in the order they are asked.
use vstd::prelude::*;

use super::{
    auth_index, auth_index_spec, auth_label_options, auth_method_labels, get_field_spec,
    FieldValue, SqlserverDbConfig,
};
use crate::text::{eq_ignore_ascii_case, eq_ignore_ascii_case_spec, opt_view, owned};

verus! {

/// How a field is asked.
#[derive(Debug)]
pub enum FieldKind {
    /// Free text, required.
    Input,
    /// Free text with a proposed default.
    OptionalInput { default: Option<String> },
    /// Hidden text.
    Password,
    /// One of `options`, answered by position; `default` is proposed.
    Select { options: Vec<String>, default: usize },
    /// Yes or no, `default` proposed.
    Confirm { default: bool },
}

/// The contents of a [`FieldKind`].
pub enum FieldKindView {
    Input,
    OptionalInput { default: Option<Seq<char>> },
    Password,
    Select { options: Seq<Seq<char>>, default: usize },
    Confirm { default: bool },
}

impl View for FieldKind {
    type V = FieldKindView;

    open spec fn view(&self) -> FieldKindView {
        match self {
            FieldKind::Input => FieldKindView::Input,
            FieldKind::OptionalInput { default } => FieldKindView::OptionalInput {
                default: opt_view(*default),
            },
            FieldKind::Password => FieldKindView::Password,
            FieldKind::Select { options, default } => FieldKindView::Select {
                options: Seq::new(options@.len(), |i: int| options@[i]@),
                default: *default,
            },
            FieldKind::Confirm { default } => FieldKindView::Confirm { default: *default },
        }
    }
}

/// One question of the setup: the field it fills, its prompt, how it is
/// asked, and the answer another field must hold for it to be asked.
#[derive(Debug)]
pub struct ConfigField {
    pub name: String,
    pub prompt: String,
    pub kind: FieldKind,
    pub condition: Option<(String, FieldValue<String>)>,
}

/// The contents of a [`ConfigField`].
pub struct ConfigFieldView {
    pub name: Seq<char>,
    pub prompt: Seq<char>,
    pub kind: FieldKindView,
    pub condition: Option<(Seq<char>, FieldValue<Seq<char>>)>,
}

impl View for ConfigField {
    type V = ConfigFieldView;

    open spec fn view(&self) -> ConfigFieldView {
        ConfigFieldView {
            name: self.name@,
            prompt: self.prompt@,
            kind: self.kind@,
            condition: match self.condition {
                Some((f, v)) => Some((f@, v@)),
                None => None,
            },
        }
    }
}

/// A field asked unconditionally.
pub open spec fn field(name: Seq<char>, prompt: Seq<char>, kind: FieldKindView) -> ConfigFieldView {
    ConfigFieldView { name, prompt, kind, condition: None }
}

/// A field asked only when the chosen method is the one at `position`.
pub open spec fn field_when_method(
    name: Seq<char>,
    prompt: Seq<char>,
    kind: FieldKindView,
    position: i64,
) -> ConfigFieldView {
    ConfigFieldView {
        name,
        prompt,
        kind,
        condition: Some(("auth_method"@, FieldValue::Integer(position))),
    }
}

/// The position of a method among the offered ones, or `fallback` when it is
/// not offered.
pub open spec fn method_position(value: Seq<char>, fallback: i64) -> i64 {
    match auth_index_spec(value) {
        Some(i) => i,
        None => fallback,
    }
}

/// The setup questions, in order: connection settings, the method (Windows
/// proposed), the credentials of the SQL-login and Entra-password methods,
/// the instance, and the two TLS settings.
pub open spec fn setup_fields() -> Seq<ConfigFieldView> {
    let sql_idx = method_position("sql"@, 1);
    let adpw_idx = method_position("ad_password"@, 2);
    seq![
        field(
            "host"@,
            "Host (SQL Server hostname or IP, e.g. sql.mycompany.com)"@,
            FieldKindView::Input,
        ),
        field("port"@, "Port"@, FieldKindView::OptionalInput { default: Some("1433"@) }),
        field("database"@, "Database"@, FieldKindView::Input),
        field("schema"@, "Schema"@, FieldKindView::OptionalInput { default: Some("dbo"@) }),
        field("threads"@, "Threads"@, FieldKindView::OptionalInput { default: Some("4"@) }),
        field(
            "auth_method"@,
            "Which authentication method would you like to use?"@,
            FieldKindView::Select { options: auth_method_labels(), default: 0 },
        ),
        field_when_method("user"@, "Username"@, FieldKindView::Input, sql_idx),
        field_when_method("password"@, "Password"@, FieldKindView::Password, sql_idx),
        field_when_method(
            "user_adpw"@,
            "Username (Entra account, e.g. user@tenant.onmicrosoft.com)"@,
            FieldKindView::Input,
            adpw_idx,
        ),
        field_when_method("password_adpw"@, "Password"@, FieldKindView::Password, adpw_idx),
        field(
            "instance"@,
            "Named instance (optional, leave blank for default)"@,
            FieldKindView::OptionalInput { default: None },
        ),
        field(
            "encrypt"@,
            "Encrypt the connection? (recommended)"@,
            FieldKindView::Confirm { default: true },
        ),
        field(
            "trust_cert"@,
            "Trust server certificate without validation? (Yes only for dev/self-signed certs)"@,
            FieldKindView::Confirm { default: false },
        ),
    ]
}

/// Whether a field is asked for a profile: it has no condition, or the other
/// field it names currently holds the required answer.
pub open spec fn field_applies(f: ConfigFieldView, c: SqlserverDbConfig<Seq<char>>) -> bool {
    match f.condition {
        None => true,
        Some((other, v)) => get_field_spec(c, other) == Some(v),
    }
}

impl ConfigField {
    fn new(name: &str, prompt: &str, kind: FieldKind) -> (r: Self)
        ensures
            r@ == field(name@, prompt@, kind@),
    {
        ConfigField { name: owned(name), prompt: owned(prompt), kind, condition: None }
    }

    /// A required free-text field.
    pub fn input(name: &str, prompt: &str) -> (r: Self)
        ensures
            r@ == field(name@, prompt@, FieldKindView::Input),
    {
        Self::new(name, prompt, FieldKind::Input)
    }

    /// A free-text field with a proposed default.
    pub fn optional_input(name: &str, prompt: &str, default: Option<&str>) -> (r: Self)
        ensures
            r@ == field(
                name@,
                prompt@,
                FieldKindView::OptionalInput {
                    default: match default {
                        Some(d) => Some(d@),
                        None => None,
                    },
                },
            ),
    {
        let default = match default {
            Some(d) => Some(owned(d)),
            None => None,
        };
        Self::new(name, prompt, FieldKind::OptionalInput { default })
    }

    /// A hidden-text field.
    pub fn password(name: &str, prompt: &str) -> (r: Self)
        ensures
            r@ == field(name@, prompt@, FieldKindView::Password),
    {
        Self::new(name, prompt, FieldKind::Password)
    }

    /// A choice among `options`, `default` proposed.
    pub fn select(name: &str, prompt: &str, options: Vec<String>, default: usize) -> (r: Self)
        ensures
            r@ == field(
                name@,
                prompt@,
                FieldKindView::Select {
                    options: Seq::new(options@.len(), |i: int| options@[i]@),
                    default,
                },
            ),
    {
        Self::new(name, prompt, FieldKind::Select { options, default })
    }

    /// A yes/no question, `default` proposed.
    pub fn confirm(name: &str, prompt: &str, default: bool) -> (r: Self)
        ensures
            r@ == field(name@, prompt@, FieldKindView::Confirm { default }),
    {
        Self::new(name, prompt, FieldKind::Confirm { default })
    }

    /// The same field, asked only when field `other` holds `value`.
    pub fn when_field_equals(self, other: &str, value: FieldValue<String>) -> (r: Self)
        ensures
            r@ == (ConfigFieldView { condition: Some((other@, value@)), ..self@ }),
    {
        ConfigField { condition: Some((owned(other), value)), ..self }
    }

    /// Whether the field is asked for the profile `config`.
    pub fn applies_to(&self, config: &SqlserverDbConfig<String>) -> (r: bool)
        ensures
            r == field_applies(self@, config@),
    {
        match &self.condition {
            None => true,
            Some((other, value)) => match config.get_field(other.as_str()) {
                Some(current) => current.same(value),
                None => false,
            },
        }
    }
}

fn position_or(value: &str, fallback: i64) -> (r: i64)
    ensures
        r == method_position(value@, fallback),
{
    match auth_index(value) {
        Some(i) => i,
        None => fallback,
    }
}

/// The setup questions of a SQL Server profile, in the order they are asked.
pub fn get_fields() -> (r: Vec<ConfigField>)
    ensures
        r@.len() == setup_fields().len(),
        forall|i: int| 0 <= i < r@.len() ==> #[trigger] r@[i]@ == setup_fields()[i],
{
    let auth_labels = auth_label_options();
    let auth_default: usize = 0;
    let sql_idx = position_or("sql", 1);
    let adpw_idx = position_or("ad_password", 2);
    assert(Seq::new(auth_labels@.len(), |i: int| auth_labels@[i]@) =~= auth_method_labels());
    let mut r: Vec<ConfigField> = Vec::new();
    r.push(ConfigField::input("host", "Host (SQL Server hostname or IP, e.g. sql.mycompany.com)"));
    r.push(ConfigField::optional_input("port", "Port", Some("1433")));
    r.push(ConfigField::input("database", "Database"));
    r.push(ConfigField::optional_input("schema", "Schema", Some("dbo")));
    r.push(ConfigField::optional_input("threads", "Threads", Some("4")));
    r.push(
        ConfigField::select(
            "auth_method",
            "Which authentication method would you like to use?",
            auth_labels,
            auth_default,
        ),
    );
    r.push(
        ConfigField::input("user", "Username").when_field_equals(
            "auth_method",
            FieldValue::Integer(sql_idx),
        ),
    );
    r.push(
        ConfigField::password("password", "Password").when_field_equals(
            "auth_method",
            FieldValue::Integer(sql_idx),
        ),
    );
    r.push(
        ConfigField::input(
            "user_adpw",
            "Username (Entra account, e.g. user@tenant.onmicrosoft.com)",
        ).when_field_equals("auth_method", FieldValue::Integer(adpw_idx)),
    );
    r.push(
        ConfigField::password("password_adpw", "Password").when_field_equals(
            "auth_method",
            FieldValue::Integer(adpw_idx),
        ),
    );
    r.push(
        ConfigField::optional_input(
            "instance",
            "Named instance (optional, leave blank for default)",
            None,
        ),
    );
    r.push(ConfigField::confirm("encrypt", "Encrypt the connection? (recommended)", true));
    r.push(
        ConfigField::confirm(
            "trust_cert",
            "Trust server certificate without validation? (Yes only for dev/self-signed certs)",
            false,
        ),
    );
    assert(r@.len() == 13);
    r
}

/// The answer a question proposes when none is given: the default of an
/// optional text, of a choice or of a yes/no question.
pub open spec fn proposed_answer(kind: FieldKindView) -> Option<FieldValue<Seq<char>>> {
    match kind {
        FieldKindView::OptionalInput { default } => match default {
            Some(d) => Some(FieldValue::String(d)),
            None => None,
        },
        FieldKindView::Select { default, .. } => Some(FieldValue::Integer(default as i64)),
        FieldKindView::Confirm { default } => Some(FieldValue::Boolean(default)),
        _ => None,
    }
}

/// Whether every character of `s` is a decimal digit.
pub open spec fn all_digits(s: Seq<char>) -> bool {
    forall|i: int| 0 <= i < s.len() ==> '0' <= #[trigger] s[i] && s[i] <= '9'
}

/// The number the decimal digits `s` write.
pub open spec fn decimal_value(s: Seq<char>) -> int
    decreases s.len(),
{
    if s.len() == 0 {
        0
    } else {
        decimal_value(s.drop_last()) * 10 + (s.last() as int - '0' as int)
    }
}

/// The value a typed answer stores, if any. An empty answer keeps the
/// current value (`None`) when there is one, and takes the proposed default
/// otherwise. A choice is answered by its position in decimal digits, a
/// yes/no question by `y`, `yes`, `n` or `no` in any ASCII case, and a text
/// question by the text itself; any other answer stores nothing.
pub open spec fn answer_spec(kind: FieldKindView, has_current: bool, answer: Seq<char>) -> Option<
    FieldValue<Seq<char>>,
> {
    if answer.len() == 0 {
        if has_current {
            None
        } else {
            proposed_answer(kind)
        }
    } else {
        match kind {
            FieldKindView::Select { .. } => if all_digits(answer) && decimal_value(answer)
                <= i64::MAX {
                Some(FieldValue::Integer(decimal_value(answer) as i64))
            } else {
                None
            },
            FieldKindView::Confirm { .. } => if eq_ignore_ascii_case_spec(answer, "y"@)
                || eq_ignore_ascii_case_spec(answer, "yes"@) {
                Some(FieldValue::Boolean(true))
            } else if eq_ignore_ascii_case_spec(answer, "n"@) || eq_ignore_ascii_case_spec(
                answer,
                "no"@,
            ) {
                Some(FieldValue::Boolean(false))
            } else {
                None
            },
            _ => Some(FieldValue::String(answer)),
        }
    }
}

proof fn lemma_decimal_grows(s: Seq<char>, k: int)
    requires
        all_digits(s),
        0 <= k <= s.len(),
    ensures
        decimal_value(s) >= decimal_value(s.take(k)) >= 0,
    decreases s.len(),
{
    if s.len() > 0 {
        let init = s.drop_last();
        assert(all_digits(init)) by {
            assert forall|i: int| 0 <= i < init.len() implies '0' <= #[trigger] init[i] && init[i]
                <= '9' by {
                assert(init[i] == s[i]);
            }
        }
        assert('0' <= s[s.len() - 1] <= '9');
        if k == s.len() {
            assert(s.take(k) =~= s);
            lemma_decimal_grows(init, init.len() as int);
            assert(init.take(init.len() as int) =~= init);
        } else {
            lemma_decimal_grows(init, k);
            assert(init.take(k) =~= s.take(k));
        }
        let x = decimal_value(init);
        let d = s.last() as int - '0' as int;
        assert(x * 10 + d >= x) by (nonlinear_arith)
            requires
                x >= 0,
                0 <= d <= 9,
        ;
    } else {
        assert(s.take(k) =~= s);
    }
}

fn parse_position(answer: &str) -> (r: Option<i64>)
    ensures
        r matches Some(v) ==> all_digits(answer@) && decimal_value(answer@) == v,
        r is None ==> !(all_digits(answer@) && decimal_value(answer@) <= i64::MAX),
{
    let n = answer.unicode_len();
    let mut v: i64 = 0;
    let mut i: usize = 0;
    while i < n
        invariant
            n == answer@.len(),
            i <= n,
            all_digits(answer@.take(i as int)),
            v == decimal_value(answer@.take(i as int)),
            v >= 0,
        decreases n - i,
    {
        let c = answer.get_char(i);
        let ghost prefix = answer@.take(i as int);
        let ghost next = answer@.take(i + 1);
        assert(next.drop_last() =~= prefix);
        assert(next.last() == c);
        if c < '0' || c > '9' {
            assert(!all_digits(answer@)) by {
                assert(answer@[i as int] == c);
            }
            return None;
        }
        let d: i64 = ((c as u32) - ('0' as u32)) as i64;
        assert(d == c as int - '0' as int);
        assert(all_digits(next)) by {
            assert forall|j: int| 0 <= j < next.len() implies '0' <= #[trigger] next[j] && next[j]
                <= '9' by {
                if j < i {
                    assert(next[j] == prefix[j]);
                }
            }
        }
        if v > (i64::MAX - d) / 10 {
            assert(v * 10 + d > i64::MAX) by (nonlinear_arith)
                requires
                    v > (i64::MAX - d) / 10,
                    0 <= d <= 9,
            ;
            proof {
                if all_digits(answer@) {
                    lemma_decimal_grows(answer@, i + 1);
                }
            }
            return None;
        }
        assert(v * 10 + d <= i64::MAX) by (nonlinear_arith)
            requires
                v <= (i64::MAX - d) / 10,
                0 <= d <= 9,
                v >= 0,
        ;
        v = v * 10 + d;
        i = i + 1;
    }
    assert(answer@.take(n as int) =~= answer@);
    Some(v)
}

/// The answer a question of this kind proposes when none is given.
pub fn proposed_value(kind: &FieldKind) -> (r: Option<FieldValue<String>>)
    ensures
        match r {
            Some(v) => proposed_answer(kind@) == Some(v@),
            None => proposed_answer(kind@) is None,
        },
{
    match kind {
        FieldKind::OptionalInput { default } => match default {
            Some(d) => Some(FieldValue::String(d.clone())),
            None => None,
        },
        FieldKind::Select { default, .. } => Some(FieldValue::Integer(*default as i64)),
        FieldKind::Confirm { default } => Some(FieldValue::Boolean(*default)),
        _ => None,
    }
}

impl ConfigField {
    /// The value the typed `answer` stores for this question, given whether
    /// the profile already holds a value for it; `None` stores nothing.
    pub fn answer_value(&self, has_current: bool, answer: &str) -> (r: Option<FieldValue<String>>)
        ensures
            match r {
                Some(v) => answer_spec(self@.kind, has_current, answer@) == Some(v@),
                None => answer_spec(self@.kind, has_current, answer@) is None,
            },
    {
        if answer.is_empty() {
            if has_current {
                return None;
            }
            return proposed_value(&self.kind);
        }
        match &self.kind {
            FieldKind::Select { .. } => match parse_position(answer) {
                Some(v) => Some(FieldValue::Integer(v)),
                None => None,
            },
            FieldKind::Confirm { .. } => {
                if eq_ignore_ascii_case(answer, "y") || eq_ignore_ascii_case(answer, "yes") {
                    Some(FieldValue::Boolean(true))
                } else if eq_ignore_ascii_case(answer, "n") || eq_ignore_ascii_case(answer, "no") {
                    Some(FieldValue::Boolean(false))
                } else {
                    None
                }
            },
            _ => Some(FieldValue::String(owned(answer))),
        }
    }
}

} // verus!
