//! The application form that the assistant fills in through tool calls.

use vstd::prelude::*;
use vstd::string::*;
use crate::text::{debug_quoted, quoted, text_is, trim, trimmed};

verus! {

/// The fields of an application.
pub struct Form {
    pub name: String,
    pub email: String,
    pub linkedin: String,
    pub github: String,
    pub notes: String,
}

/// A tool call on the form: which field, which action, and the value to
/// write (empty when the call gave none).
pub struct ToolInput {
    pub field: String,
    pub action: String,
    pub value: String,
}

/// The form's fields as text.
pub struct FormView {
    pub name: Seq<char>,
    pub email: Seq<char>,
    pub linkedin: Seq<char>,
    pub github: Seq<char>,
    pub notes: Seq<char>,
}

impl View for Form {
    type V = FormView;

    open spec fn view(&self) -> FormView {
        FormView {
            name: self.name@,
            email: self.email@,
            linkedin: self.linkedin@,
            github: self.github@,
            notes: self.notes@,
        }
    }
}

/// The form with every field empty.
pub open spec fn blank_form() -> FormView {
    FormView {
        name: Seq::empty(),
        email: Seq::empty(),
        linkedin: Seq::empty(),
        github: Seq::empty(),
        notes: Seq::empty(),
    }
}

/// Whether a field name is one of the five fields.
pub open spec fn is_field(k: Seq<char>) -> bool {
    k == "name"@ || k == "email"@ || k == "linkedin"@ || k == "github"@ || k == "notes"@
}

/// The value of the named field.
pub open spec fn field_value(f: FormView, k: Seq<char>) -> Seq<char> {
    if k == "name"@ {
        f.name
    } else if k == "email"@ {
        f.email
    } else if k == "linkedin"@ {
        f.linkedin
    } else if k == "github"@ {
        f.github
    } else {
        f.notes
    }
}

/// The form with the named field set to `v`.
pub open spec fn with_field(f: FormView, k: Seq<char>, v: Seq<char>) -> FormView {
    if k == "name"@ {
        FormView { name: v, ..f }
    } else if k == "email"@ {
        FormView { email: v, ..f }
    } else if k == "linkedin"@ {
        FormView { linkedin: v, ..f }
    } else if k == "github"@ {
        FormView { github: v, ..f }
    } else {
        FormView { notes: v, ..f }
    }
}

/// Name and email both hold something besides white space.
pub open spec fn form_ready(f: FormView) -> bool {
    trimmed(f.name).len() > 0 && trimmed(f.email).len() > 0
}

/// The listing of the whole form that a read of `form` returns.
pub open spec fn form_listing(f: FormView) -> Seq<char> {
    "name: "@ + debug_quoted(f.name) + "\nemail: "@ + debug_quoted(f.email) + "\nlinkedin: "@
        + debug_quoted(f.linkedin) + "\ngithub: "@ + debug_quoted(f.github) + "\nnotes: "@
        + debug_quoted(f.notes)
}

/// What a tool call does to the form, and the text it answers with.
pub open spec fn apply_spec(f: FormView, field: Seq<char>, action: Seq<char>, value: Seq<char>) -> (
    FormView,
    Seq<char>,
) {
    if action == "write"@ {
        if is_field(field) {
            (with_field(f, field, value), "Set "@ + field + " to "@ + debug_quoted(value))
        } else {
            (f, "Unknown field: "@ + field)
        }
    } else if action == "read"@ {
        if field == "form"@ {
            (f, form_listing(f))
        } else if is_field(field) {
            (f, debug_quoted(field_value(f, field)))
        } else {
            (f, "Unknown field: "@ + field)
        }
    } else if action == "clear"@ {
        if field == "form"@ {
            (blank_form(), "Form cleared"@)
        } else if is_field(field) {
            (with_field(f, field, Seq::empty()), "Cleared "@ + field)
        } else {
            (f, "Unknown field: "@ + field)
        }
    } else if action == "submit"@ {
        if form_ready(f) {
            (f, "Form submitted"@)
        } else {
            (f, "Cannot submit: name and email are required"@)
        }
    } else {
        (f, "Unknown action: "@ + action)
    }
}

impl ToolInput {
    /// A tool call from its three parts.
    pub fn new(field: String, action: String, value: String) -> (r: ToolInput)
        ensures
            r.field@ == field@,
            r.action@ == action@,
            r.value@ == value@,
    {
        ToolInput { field, action, value }
    }
}

impl Form {
    /// The empty form.
    pub fn new() -> (r: Form)
        ensures
            r@ == blank_form(),
    {
        Form {
            name: String::new(),
            email: String::new(),
            linkedin: String::new(),
            github: String::new(),
            notes: String::new(),
        }
    }

    /// Whether every field is empty.
    pub fn is_empty(&self) -> (r: bool)
        ensures
            r == (self@ == blank_form()),
    {
        let r = self.name.as_str().is_empty() && self.email.as_str().is_empty()
            && self.linkedin.as_str().is_empty() && self.github.as_str().is_empty()
            && self.notes.as_str().is_empty();
        proof {
            if r {
                assert(self@.name =~= Seq::<char>::empty());
                assert(self@.email =~= Seq::<char>::empty());
                assert(self@.linkedin =~= Seq::<char>::empty());
                assert(self@.github =~= Seq::<char>::empty());
                assert(self@.notes =~= Seq::<char>::empty());
            }
        }
        r
    }

    /// Whether the required fields, name and email, are filled in.
    pub fn is_ready(&self) -> (r: bool)
        ensures
            r == form_ready(self@),
    {
        !trim(self.name.as_str()).is_empty() && !trim(self.email.as_str()).is_empty()
    }

    fn field_mut(&mut self, k: &String, v: String)
        requires
            is_field(k@),
        ensures
            final(self)@ == with_field(old(self)@, k@, v@),
    {
        if text_is(k, "name") {
            self.name = v;
        } else if text_is(k, "email") {
            self.email = v;
        } else if text_is(k, "linkedin") {
            self.linkedin = v;
        } else if text_is(k, "github") {
            self.github = v;
        } else {
            self.notes = v;
        }
    }

    fn field_ref(&self, k: &String) -> (r: &String)
        requires
            is_field(k@),
        ensures
            r@ == field_value(self@, k@),
    {
        if text_is(k, "name") {
            &self.name
        } else if text_is(k, "email") {
            &self.email
        } else if text_is(k, "linkedin") {
            &self.linkedin
        } else if text_is(k, "github") {
            &self.github
        } else {
            &self.notes
        }
    }

    fn names_field(k: &String) -> (r: bool)
        ensures
            r == is_field(k@),
    {
        text_is(k, "name") || text_is(k, "email") || text_is(k, "linkedin") || text_is(k, "github")
            || text_is(k, "notes")
    }

    fn listing(&self) -> (r: String)
        ensures
            r@ == form_listing(self@),
    {
        let mut r = String::from_str("name: ");
        r.append(quoted(self.name.as_str()).as_str());
        r.append("\nemail: ");
        r.append(quoted(self.email.as_str()).as_str());
        r.append("\nlinkedin: ");
        r.append(quoted(self.linkedin.as_str()).as_str());
        r.append("\ngithub: ");
        r.append(quoted(self.github.as_str()).as_str());
        r.append("\nnotes: ");
        r.append(quoted(self.notes.as_str()).as_str());
        r
    }

    /// Carries out a tool call and returns the text that answers it: `write`
    /// sets a field, `read` shows one field or the whole form, `clear` empties
    /// one field or the whole form, `submit` says whether the form can be
    /// submitted. An unknown field or action changes nothing and is named in
    /// the answer.
    pub fn apply(&mut self, input: &ToolInput) -> (r: String)
        ensures
            (final(self)@, r@) == apply_spec(old(self)@, input.field@, input.action@, input.value@),
    {
        let unknown_field = "Unknown field: ";
        if text_is(&input.action, "write") {
            if Self::names_field(&input.field) {
                self.field_mut(&input.field, input.value.clone());
                let mut r = String::from_str("Set ");
                r.append(input.field.as_str());
                r.append(" to ");
                r.append(quoted(input.value.as_str()).as_str());
                r
            } else {
                let mut r = String::from_str(unknown_field);
                r.append(input.field.as_str());
                r
            }
        } else if text_is(&input.action, "read") {
            if text_is(&input.field, "form") {
                self.listing()
            } else if Self::names_field(&input.field) {
                quoted(self.field_ref(&input.field).as_str())
            } else {
                let mut r = String::from_str(unknown_field);
                r.append(input.field.as_str());
                r
            }
        } else if text_is(&input.action, "clear") {
            if text_is(&input.field, "form") {
                *self = Form::new();
                String::from_str("Form cleared")
            } else if Self::names_field(&input.field) {
                self.field_mut(&input.field, String::new());
                let mut r = String::from_str("Cleared ");
                r.append(input.field.as_str());
                r
            } else {
                let mut r = String::from_str(unknown_field);
                r.append(input.field.as_str());
                r
            }
        } else if text_is(&input.action, "submit") {
            if self.is_ready() {
                String::from_str("Form submitted")
            } else {
                String::from_str("Cannot submit: name and email are required")
            }
        } else {
            let mut r = String::from_str("Unknown action: ");
            r.append(input.action.as_str());
            r
        }
    }
}

} // verus!
