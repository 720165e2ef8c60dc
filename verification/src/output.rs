//! What the client prints, in which form, and where.

pub mod icon;

use vstd::prelude::*;

verus! {

/// The forms of output that were asked for.
#[derive(Clone, Copy, Debug, PartialEq, Eq, Structural)]
pub struct Output {
    pub human_readable: bool,
    pub json: bool,
}

/// A form in which a value is printed.
#[derive(Clone, Copy, Debug, PartialEq, Eq, Structural)]
pub enum Form {
    Json,
    HumanReadable,
}

/// A stream to print to.
#[derive(Clone, Copy, Debug, PartialEq, Eq, Structural)]
pub enum Stream {
    Stdout,
    Stderr,
}

/// A text to write to a stream.
#[derive(Debug, PartialEq, Eq)]
pub struct Printed {
    pub form: Form,
    pub stream: Stream,
    pub text: String,
}

/// A value that can be written for people to read.
pub trait HumanReadable {
    /// The text of the value, with every line after the first indented by
    /// `indent` columns.
    fn human_readable(&self, indent: usize) -> String;
}

/// A value that can be written as JSON.
pub trait Json {
    /// The JSON text of the value.
    fn to_json(&self) -> String;
}

/// True if `text` is the text of `value` in the form `form`: what
/// `to_json` returned for it, or what `human_readable` returned for it
/// without indentation.
pub open spec fn text_in<T: HumanReadable + Json>(value: &T, form: Form, text: String) -> bool {
    match form {
        Form::Json => call_ensures(<T as Json>::to_json, (value,), text),
        Form::HumanReadable => call_ensures(
            <T as HumanReadable>::human_readable,
            (value, 0usize),
            text,
        ),
    }
}

/// A value that can be printed as the user asked.
pub trait Print: HumanReadable + Json + Sized {
    /// What to write for the value, and where: the text of the value in
    /// each form of the plan, for the stream of the plan. `terminal` tells
    /// whether standard output is a terminal.
    fn print(&self, output: Output, terminal: bool) -> (r: Vec<Printed>)
        ensures
            r@.len() == output.plan(terminal).len(),
            forall|i: int|
                0 <= i < r@.len() ==> (#[trigger] r@[i].form, r@[i].stream) == output.plan(
                    terminal,
                )[i],
            forall|i: int|
                0 <= i < r@.len() ==> text_in(self, (#[trigger] r@[i]).form, r@[i].text),
    ;
}

impl Output {
    /// The forms in which a value is written, each with its stream, in the
    /// order of writing. JSON goes to standard output; if both forms were
    /// asked for, the text for people goes to standard error. If neither
    /// was asked for, a terminal gets the text for people and anything else
    /// gets JSON.
    pub open spec fn plan(self, terminal: bool) -> Seq<(Form, Stream)> {
        if self.json {
            if self.human_readable {
                seq![(Form::Json, Stream::Stdout), (Form::HumanReadable, Stream::Stderr)]
            } else {
                seq![(Form::Json, Stream::Stdout)]
            }
        } else if self.human_readable || terminal {
            seq![(Form::HumanReadable, Stream::Stdout)]
        } else {
            seq![(Form::Json, Stream::Stdout)]
        }
    }

    /// The forms in which a value is written, each with its stream, in the
    /// order of writing.
    pub fn forms(self, terminal: bool) -> (r: Vec<(Form, Stream)>)
        ensures
            r@ == self.plan(terminal),
    {
        let mut forms: Vec<(Form, Stream)> = Vec::new();
        if self.json {
            forms.push((Form::Json, Stream::Stdout));
            if self.human_readable {
                forms.push((Form::HumanReadable, Stream::Stderr));
            }
        } else if self.human_readable || terminal {
            forms.push((Form::HumanReadable, Stream::Stdout));
        } else {
            forms.push((Form::Json, Stream::Stdout));
        }
        assert(forms@ =~= self.plan(terminal));
        forms
    }
}

impl<T: HumanReadable + Json> Print for T {
    fn print(&self, output: Output, terminal: bool) -> (r: Vec<Printed>) {
        let forms = output.forms(terminal);
        let mut printed: Vec<Printed> = Vec::new();
        let mut i: usize = 0;
        while i < forms.len()
            invariant
                i <= forms.len(),
                forms@ == output.plan(terminal),
                printed@.len() == i,
                forall|k: int|
                    0 <= k < i ==> (#[trigger] printed@[k].form, printed@[k].stream) == forms@[k],
                forall|k: int|
                    0 <= k < i ==> text_in(self, (#[trigger] printed@[k]).form, printed@[k].text),
            decreases forms.len() - i,
        {
            let (form, stream) = forms[i];
            let text = match form {
                Form::Json => self.to_json(),
                Form::HumanReadable => self.human_readable(0),
            };
            printed.push(Printed { form, stream, text });
            i += 1;
        }
        printed
    }
}

} // verus!
