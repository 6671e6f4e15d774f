use vstd::prelude::*;
use vstd::string::StringExecFns;

verus! {

/// What the browser is asked to do with the data of an outbound envelope.
///
/// `JS` runs the data as script; `HTML` installs the data as markup.
#[derive(Debug, Clone, Copy, PartialEq, Eq, Structural)]
pub enum Event {
    JS,
    HTML,
}

impl Event {
    /// The name under which the kind travels in an envelope.
    pub open spec fn wire_name(self) -> Seq<char> {
        match self {
            Event::JS => seq!['j', 's'],
            Event::HTML => seq!['h', 't', 'm', 'l'],
        }
    }

    /// The kind's wire name as text: `js` or `html`.
    pub fn to_string(&self) -> (name: String)
        ensures
            name@ == self.wire_name(),
    {
        match self {
            Event::JS => {
                proof {
                    reveal_strlit("js");
                }
                assert("js"@ =~= seq!['j', 's']);
                String::from_str("js")
            },
            Event::HTML => {
                proof {
                    reveal_strlit("html");
                }
                assert("html"@ =~= seq!['h', 't', 'm', 'l']);
                String::from_str("html")
            },
        }
    }
}

} // verus!
