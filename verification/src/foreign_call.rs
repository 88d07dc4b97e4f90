use vstd::prelude::*;
use vstd::string::*;
use crate::errors::ExecutionError;
use crate::text::{join, join_strings, texts_of};
use crate::value::Value;

verus! {

/// What a circuit asks of the world outside it: an identifier and the input
/// values, in order.
#[derive(Clone, Debug)]
pub struct ForeignCallRequest {
    pub function: String,
    pub inputs: Vec<Vec<Value>>,
}

/// One output of a foreign call.
#[derive(Clone, Debug)]
pub enum ForeignCallOutput {
    Single(Value),
    Array(Vec<Value>),
}

/// All outputs of a foreign call, in the order the circuit expects them.
#[derive(Clone, Debug)]
pub struct ForeignCallResult {
    pub values: Vec<ForeignCallOutput>,
}

/// The text of each value, in order.
pub open spec fn value_texts(values: Seq<Value>) -> Seq<Seq<char>> {
    Seq::new(values.len(), |i: int| values[i].spec_text())
}

/// One input as text: its values, separated by a comma and a space.
pub open spec fn input_text(values: Seq<Value>) -> Seq<char> {
    join(value_texts(values), ", "@)
}

/// The text of each input, in order.
pub open spec fn input_texts(inputs: Seq<Vec<Value>>) -> Seq<Seq<char>> {
    Seq::new(inputs.len(), |i: int| input_text(inputs[i]@))
}

/// The line that a print call writes: its inputs, separated by a space.
pub open spec fn printed_text(inputs: Seq<Vec<Value>>) -> Seq<char> {
    join(input_texts(inputs), " "@)
}

/// Renders one input.
pub fn render_input(values: &Vec<Value>) -> (out: String)
    ensures
        out@ == input_text(values@),
{
    let mut texts: Vec<String> = Vec::new();
    let mut i: usize = 0;
    while i < values.len()
        invariant
            i <= values.len(),
            texts@.len() == i,
            forall|j: int| 0 <= j < i ==> texts@[j]@ == #[trigger] values@[j].spec_text(),
        decreases values.len() - i,
    {
        texts.push(values[i].to_text());
        i = i + 1;
    }
    proof {
        assert(texts_of(texts@) =~= value_texts(values@));
    }
    join_strings(&texts, ", ")
}

/// Renders the line that a print call writes for `inputs`.
pub fn render_inputs(inputs: &Vec<Vec<Value>>) -> (out: String)
    ensures
        out@ == printed_text(inputs@),
{
    let mut texts: Vec<String> = Vec::new();
    let mut i: usize = 0;
    while i < inputs.len()
        invariant
            i <= inputs.len(),
            texts@.len() == i,
            forall|j: int| 0 <= j < i ==> texts@[j]@ == input_text(#[trigger] inputs@[j]@),
        decreases inputs.len() - i,
    {
        texts.push(render_input(&inputs[i]));
        i = i + 1;
    }
    proof {
        assert(texts_of(texts@) =~= input_texts(inputs@));
    }
    join_strings(&texts, " ")
}

/// The foreign calls that the dispatcher knows.
#[derive(Clone, Copy, Debug, PartialEq, Eq, Structural)]
pub enum ForeignCall {
    /// Writes its inputs as one line of debug output.
    Println,
    /// Carries the message that the program attached to an assertion, for the
    /// caller to report if the assertion fails.
    AssertMessage,
}

/// What foreign calls leave for the caller: the lines that print calls
/// wrote, oldest first, and the message that the program last attached to an
/// assertion.
#[derive(Debug)]
pub struct OutputSink {
    pub lines: Vec<String>,
    pub assert_message: Option<String>,
}

impl OutputSink {
    /// The lines written so far.
    pub open spec fn line_texts(&self) -> Seq<Seq<char>> {
        texts_of(self.lines@)
    }

    /// The message last attached to an assertion, if there was one.
    pub open spec fn message_text(&self) -> Option<Seq<char>> {
        match self.assert_message {
            Some(message) => Some(message@),
            None => None,
        }
    }

    /// Whether `self` holds the same lines and the same message as `other`.
    pub open spec fn same_as(&self, other: OutputSink) -> bool {
        self.line_texts() == other.line_texts() && self.message_text() == other.message_text()
    }

    /// A sink that nothing has been written to.
    pub fn new() -> (sink: OutputSink)
        ensures
            sink.line_texts().len() == 0,
            sink.message_text() is None,
    {
        OutputSink { lines: Vec::new(), assert_message: None }
    }
}

/// What dispatching `request` comes to.
///
/// An unknown identifier is refused and leaves the sink as it was. A print
/// call appends one line to the sink when output is shown, and none
/// otherwise. An assertion message replaces the sink's message, whether or
/// not output is shown. Every known call answers with as many values as its
/// identifier stands for.
pub open spec fn dispatched(
    request: ForeignCallRequest,
    show_output: bool,
    before: OutputSink,
    after: OutputSink,
    outcome: Result<ForeignCallResult, ExecutionError>,
) -> bool {
    match ForeignCall::spec_lookup(request.function@) {
        None => {
            &&& outcome matches Err(ExecutionError::UnknownForeignCall(id))
            &&& id@ == request.function@
            &&& after.same_as(before)
        },
        Some(ForeignCall::Println) => {
            &&& outcome matches Ok(result)
            &&& result.values@.len() == ForeignCall::Println.arity()
            &&& after.message_text() == before.message_text()
            &&& after.line_texts() == if show_output {
                before.line_texts().push(printed_text(request.inputs@))
            } else {
                before.line_texts()
            }
        },
        Some(ForeignCall::AssertMessage) => {
            &&& outcome matches Ok(result)
            &&& result.values@.len() == ForeignCall::AssertMessage.arity()
            &&& after.line_texts() == before.line_texts()
            &&& after.message_text() == Some(printed_text(request.inputs@))
        },
    }
}

impl ForeignCall {
    /// The identifier under which a circuit asks for the call.
    pub open spec fn spec_name(self) -> Seq<char> {
        match self {
            ForeignCall::Println => "println"@,
            ForeignCall::AssertMessage => "assert_message"@,
        }
    }

    /// The call that an identifier stands for, if any.
    pub open spec fn spec_lookup(name: Seq<char>) -> Option<ForeignCall> {
        if name == "println"@ {
            Some(ForeignCall::Println)
        } else if name == "assert_message"@ {
            Some(ForeignCall::AssertMessage)
        } else {
            None
        }
    }

    /// How many outputs the call gives back to the circuit.
    pub open spec fn arity(self) -> nat {
        0
    }

    /// The identifier under which a circuit asks for the call.
    pub fn name(&self) -> (out: String)
        ensures
            out@ == self.spec_name(),
    {
        match self {
            ForeignCall::Println => String::from_str("println"),
            ForeignCall::AssertMessage => String::from_str("assert_message"),
        }
    }

    /// Finds the call that `name` stands for.
    pub fn lookup(name: &String) -> (call: Option<ForeignCall>)
        ensures
            call == ForeignCall::spec_lookup(name@),
    {
        let println = String::from_str("println");
        let assert_message = String::from_str("assert_message");
        if *name == println {
            Some(ForeignCall::Println)
        } else if *name == assert_message {
            Some(ForeignCall::AssertMessage)
        } else {
            None
        }
    }

    /// How many outputs the call gives back to the circuit.
    pub fn output_count(&self) -> (count: usize)
        ensures
            count == self.arity(),
    {
        0
    }

    /// Hands `result` on if it has the shape that the call stands for, and
    /// refuses it otherwise.
    pub fn shaped(&self, result: ForeignCallResult) -> (out: Result<
        ForeignCallResult,
        ExecutionError,
    >)
        ensures
            match out {
                Ok(kept) => kept == result && result.values@.len() == self.arity(),
                Err(error) => error is ResultShapeMismatch && result.values@.len() != self.arity(),
            },
    {
        if result.values.len() == self.output_count() {
            Ok(result)
        } else {
            Err(ExecutionError::ResultShapeMismatch)
        }
    }

    /// Carries out the foreign call that `request` names.
    ///
    /// Nothing but the request is read, and nothing but the sink is written.
    pub fn execute(request: &ForeignCallRequest, show_output: bool, output: &mut OutputSink) -> (outcome:
        Result<ForeignCallResult, ExecutionError>)
        ensures
            dispatched(*request, show_output, *old(output), *final(output), outcome),
    {
        match ForeignCall::lookup(&request.function) {
            None => Err(ExecutionError::UnknownForeignCall(request.function.clone())),
            Some(call) => {
                match call {
                    ForeignCall::Println => {
                        if show_output {
                            let line = render_inputs(&request.inputs);
                            proof {
                                assert(texts_of(output.lines@.push(line)) =~= texts_of(
                                    output.lines@,
                                ).push(printed_text(request.inputs@)));
                            }
                            output.lines.push(line);
                        }
                    },
                    ForeignCall::AssertMessage => {
                        output.assert_message = Some(render_inputs(&request.inputs));
                    },
                }
                call.shaped(ForeignCallResult { values: Vec::new() })
            },
        }
    }
}

/// Each known call is found again under its own identifier.
pub proof fn lemma_lookup_finds_name(call: ForeignCall)
    ensures
        ForeignCall::spec_lookup(call.spec_name()) == Some(call),
{
    reveal_strlit("println");
    reveal_strlit("assert_message");
    assert("println"@.len() == 7);
    assert("assert_message"@.len() == 14);
}

/// An identifier outside the vocabulary is refused, whatever else the request
/// holds: the outcome is the error that names the identifier, never a result,
/// and nothing is written.
pub proof fn lemma_unknown_call_rejected(
    request: ForeignCallRequest,
    show_output: bool,
    before: OutputSink,
    after: OutputSink,
    outcome: Result<ForeignCallResult, ExecutionError>,
)
    requires
        ForeignCall::spec_lookup(request.function@) is None,
        dispatched(request, show_output, before, after, outcome),
    ensures
        outcome matches Err(ExecutionError::UnknownForeignCall(id)) && id@ == request.function@,
        after.same_as(before),
{
}

} // verus!
