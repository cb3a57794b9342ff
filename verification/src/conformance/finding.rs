//! Findings of the conformance checks, and the report that lists them.

use vstd::prelude::*;

use super::transcript::{AssistantName, FrameKind, TargetId, kind_name, target_label};
use crate::text::{
    debugged, decimal, decimal_i64, decimal_int, decimal_u64, join3, joined, owned, quote, same,
    texts,
};
use crate::text_set::{TextSet, set_of, sorted_set};

verus! {

/// Something that a target does otherwise than it should.
pub enum Finding {
    /// A frame has not the shape that its method asks for, or does not fit the
    /// frames before it.
    SchemaError { step: String, method: String, kind: FrameKind, message: String },
    /// A frame does not pass the JSON schema that codex publishes.
    UpstreamSchemaError { step: String, method: String, kind: FrameKind, message: String },
    /// A frame is well formed, but what it holds breaks a rule of its method.
    SemanticViolation { step: String, method: String, contract: String, detail: String },
    /// A method failed that should work on the target.
    UnexpectedError { step: String, method: String, code: i64, message: String },
    /// Codex sent a notification in a step and the target did not.
    MissingNotification { step: String, method: String },
    /// The target sent a notification in a step and codex did not.
    ExtraNotification { step: String, method: String },
    /// Both sent a frame, with different keys in it.
    KeyDifference {
        step: String,
        method: String,
        kind: FrameKind,
        /// Keys that only codex has.
        missing: TextSet,
        /// Keys that only the target has.
        extra: TextSet,
    },
}

/// The model of [`Finding`].
#[verifier::ext_equal]
pub enum FindingV {
    SchemaError { step: Seq<char>, method: Seq<char>, kind: FrameKind, message: Seq<char> },
    UpstreamSchemaError { step: Seq<char>, method: Seq<char>, kind: FrameKind, message: Seq<char> },
    SemanticViolation {
        step: Seq<char>,
        method: Seq<char>,
        contract: Seq<char>,
        detail: Seq<char>,
    },
    UnexpectedError { step: Seq<char>, method: Seq<char>, code: i64, message: Seq<char> },
    MissingNotification { step: Seq<char>, method: Seq<char> },
    ExtraNotification { step: Seq<char>, method: Seq<char> },
    KeyDifference {
        step: Seq<char>,
        method: Seq<char>,
        kind: FrameKind,
        missing: Set<Seq<char>>,
        extra: Set<Seq<char>>,
    },
}

impl FindingV {
    /// The step in which it showed.
    pub open spec fn step(self) -> Seq<char> {
        match self {
            FindingV::SchemaError { step, .. } => step,
            FindingV::UpstreamSchemaError { step, .. } => step,
            FindingV::SemanticViolation { step, .. } => step,
            FindingV::UnexpectedError { step, .. } => step,
            FindingV::MissingNotification { step, .. } => step,
            FindingV::ExtraNotification { step, .. } => step,
            FindingV::KeyDifference { step, .. } => step,
        }
    }

    /// The method that it is about.
    pub open spec fn method(self) -> Seq<char> {
        match self {
            FindingV::SchemaError { method, .. } => method,
            FindingV::UpstreamSchemaError { method, .. } => method,
            FindingV::SemanticViolation { method, .. } => method,
            FindingV::UnexpectedError { method, .. } => method,
            FindingV::MissingNotification { method, .. } => method,
            FindingV::ExtraNotification { method, .. } => method,
            FindingV::KeyDifference { method, .. } => method,
        }
    }
}

impl Finding {
    /// The model of this finding.
    pub open spec fn view(&self) -> FindingV {
        match *self {
            Finding::SchemaError { step, method, kind, message } => FindingV::SchemaError {
                step: step@,
                method: method@,
                kind,
                message: message@,
            },
            Finding::UpstreamSchemaError { step, method, kind, message } =>
                FindingV::UpstreamSchemaError {
                step: step@,
                method: method@,
                kind,
                message: message@,
            },
            Finding::SemanticViolation { step, method, contract, detail } =>
                FindingV::SemanticViolation {
                step: step@,
                method: method@,
                contract: contract@,
                detail: detail@,
            },
            Finding::UnexpectedError { step, method, code, message } =>
                FindingV::UnexpectedError { step: step@, method: method@, code, message: message@ },
            Finding::MissingNotification { step, method } => FindingV::MissingNotification {
                step: step@,
                method: method@,
            },
            Finding::ExtraNotification { step, method } => FindingV::ExtraNotification {
                step: step@,
                method: method@,
            },
            Finding::KeyDifference { step, method, kind, missing, extra } =>
                FindingV::KeyDifference {
                step: step@,
                method: method@,
                kind,
                missing: missing.set(),
                extra: extra.set(),
            },
        }
    }

    /// The step in which it showed.
    pub fn step(&self) -> (r: &str)
        ensures
            r@ == self.view().step(),
    {
        match self {
            Finding::SchemaError { step, .. } => step.as_str(),
            Finding::UpstreamSchemaError { step, .. } => step.as_str(),
            Finding::SemanticViolation { step, .. } => step.as_str(),
            Finding::UnexpectedError { step, .. } => step.as_str(),
            Finding::MissingNotification { step, .. } => step.as_str(),
            Finding::ExtraNotification { step, .. } => step.as_str(),
            Finding::KeyDifference { step, .. } => step.as_str(),
        }
    }

    /// The method that it is about.
    pub fn method(&self) -> (r: &str)
        ensures
            r@ == self.view().method(),
    {
        match self {
            Finding::SchemaError { method, .. } => method.as_str(),
            Finding::UpstreamSchemaError { method, .. } => method.as_str(),
            Finding::SemanticViolation { method, .. } => method.as_str(),
            Finding::UnexpectedError { method, .. } => method.as_str(),
            Finding::MissingNotification { method, .. } => method.as_str(),
            Finding::ExtraNotification { method, .. } => method.as_str(),
            Finding::KeyDifference { method, .. } => method.as_str(),
        }
    }
}

/// The models of a list of findings.
pub open spec fn findings(s: Seq<Finding>) -> Seq<FindingV> {
    s.map_values(|f: Finding| f.view())
}

/// The models of a list with one more finding.
pub proof fn lemma_findings_push(s: Seq<Finding>, f: Finding)
    ensures
        findings(s.push(f)) == findings(s).push(f.view()),
{
    assert(findings(s.push(f)) =~= findings(s).push(f.view()));
}

// ---------------------------------------------------------------------------
// The report
// ---------------------------------------------------------------------------
/// The findings about one target.
pub struct ConformanceReport {
    pub target: TargetId,
    pub findings: Vec<Finding>,
}

/// A set of texts as `{:?}` shows it.
pub open spec fn set_text(s: Seq<Seq<char>>) -> Seq<char> {
    "{"@ + joined(s.map_values(|x: Seq<char>| debugged(x)), ", "@) + "}"@
}

fn show_set(s: &TextSet) -> (r: String)
    ensures
        r@ == set_text(s@),
{
    let mut parts: Vec<String> = Vec::new();
    let n: usize = s.len();
    let mut i: usize = 0;
    while i < n
        invariant
            i <= n,
            n == s@.len(),
            parts@.len() == i,
            forall|j: int| 0 <= j < i ==> (#[trigger] parts@[j])@ == debugged(s@[j]),
        decreases n - i,
    {
        parts.push(quote(s.at(i)));
        i += 1;
    }
    assert(texts(parts@) =~= s@.map_values(|x: Seq<char>| debugged(x)));
    join3("{", crate::text::join(&parts, ", ").as_str(), "}")
}

/// What a report says of one finding.
pub open spec fn detail_text(f: Finding) -> Seq<char> {
    match f {
        Finding::SchemaError { step, method, kind, message } => "schema error in "@ + kind_name(
            kind,
        ) + " "@ + method@ + " (step="@ + step@ + "): "@ + message@ + "\n"@,
        Finding::UpstreamSchemaError { step, method, kind, message } =>
            "upstream-schema violation in "@ + kind_name(kind) + " "@ + method@ + " (step="@
            + step@ + "): "@ + message@ + "\n"@,
        Finding::SemanticViolation { step, method, contract, detail } =>
            "semantic violation for "@ + method@ + "."@ + contract@ + " (step="@ + step@ + "): "@
            + detail@ + "\n"@,
        Finding::UnexpectedError { step, method, code, message } =>
            "unexpected error response for "@ + method@ + " (step="@ + step@ + ", code="@
            + decimal_int(code as int) + "): "@ + message@ + "\n"@,
        Finding::MissingNotification { step, method } => "missing notification "@ + method@
            + " in step "@ + step@ + "\n"@,
        Finding::ExtraNotification { step, method } => "unexpected extra notification "@ + method@
            + " in step "@ + step@ + "\n"@,
        Finding::KeyDifference { step, method, kind, missing, extra } =>
            "key fingerprint diff for "@ + kind_name(kind) + " "@ + method@ + " (step="@ + step@
            + "):\n"@ + (if missing@.len() > 0 {
            "      missing on target: "@ + set_text(missing@) + "\n"@
        } else {
            seq![]
        }) + (if extra@.len() > 0 {
            "      extra on target:   "@ + set_text(extra@) + "\n"@
        } else {
            seq![]
        }),
    }
}

/// Writes what a report says of one finding.
pub fn write_finding_detail(f: &Finding) -> (r: String)
    ensures
        r@ == detail_text(*f),
{
    let mut out = String::new();
    match f {
        Finding::SchemaError { step, method, kind, message } => {
            out.append("schema error in ");
            out.append(kind.name());
            out.append(" ");
            out.append(method.as_str());
            out.append(" (step=");
            out.append(step.as_str());
            out.append("): ");
            out.append(message.as_str());
            out.append("\n");
        },
        Finding::UpstreamSchemaError { step, method, kind, message } => {
            out.append("upstream-schema violation in ");
            out.append(kind.name());
            out.append(" ");
            out.append(method.as_str());
            out.append(" (step=");
            out.append(step.as_str());
            out.append("): ");
            out.append(message.as_str());
            out.append("\n");
        },
        Finding::SemanticViolation { step, method, contract, detail } => {
            out.append("semantic violation for ");
            out.append(method.as_str());
            out.append(".");
            out.append(contract.as_str());
            out.append(" (step=");
            out.append(step.as_str());
            out.append("): ");
            out.append(detail.as_str());
            out.append("\n");
        },
        Finding::UnexpectedError { step, method, code, message } => {
            out.append("unexpected error response for ");
            out.append(method.as_str());
            out.append(" (step=");
            out.append(step.as_str());
            out.append(", code=");
            out.append(decimal_i64(*code).as_str());
            out.append("): ");
            out.append(message.as_str());
            out.append("\n");
        },
        Finding::MissingNotification { step, method } => {
            out.append("missing notification ");
            out.append(method.as_str());
            out.append(" in step ");
            out.append(step.as_str());
            out.append("\n");
        },
        Finding::ExtraNotification { step, method } => {
            out.append("unexpected extra notification ");
            out.append(method.as_str());
            out.append(" in step ");
            out.append(step.as_str());
            out.append("\n");
        },
        Finding::KeyDifference { step, method, kind, missing, extra } => {
            out.append("key fingerprint diff for ");
            out.append(kind.name());
            out.append(" ");
            out.append(method.as_str());
            out.append(" (step=");
            out.append(step.as_str());
            out.append("):\n");
            if !missing.is_empty() {
                out.append("      missing on target: ");
                out.append(show_set(missing).as_str());
                out.append("\n");
            }
            if !extra.is_empty() {
                out.append("      extra on target:   ");
                out.append(show_set(extra).as_str());
                out.append("\n");
            }
        },
    }
    assert(out@ =~= detail_text(*f));
    out
}

/// The methods that a list of findings is about, in ascending order.
pub open spec fn methods_of(s: Seq<FindingV>) -> Seq<Seq<char>> {
    sorted_set(s.map_values(|f: FindingV| f.method()))
}

/// How many findings are about a method.
pub open spec fn about(s: Seq<Finding>, method: Seq<char>) -> nat
    decreases s.len(),
{
    if s.len() == 0 {
        0
    } else {
        about(s.drop_last(), method) + (if s.last().view().method() == method {
            1nat
        } else {
            0nat
        })
    }
}

/// The numbered details of the findings about one method.
pub open spec fn method_details(s: Seq<Finding>, method: Seq<char>) -> Seq<char>
    decreases s.len(),
{
    if s.len() == 0 {
        seq![]
    } else if s.last().view().method() == method {
        method_details(s.drop_last(), method) + "  #"@ + decimal(about(s.drop_last(), method))
            + ": "@ + detail_text(s.last())
    } else {
        method_details(s.drop_last(), method)
    }
}

/// The table of the methods with findings.
pub open spec fn table_text(s: Seq<Finding>, methods: Seq<Seq<char>>) -> Seq<char>
    decreases methods.len(),
{
    if methods.len() == 0 {
        seq![]
    } else {
        table_text(s, methods.drop_last()) + methods.last() + " | FAIL("@ + decimal(
            about(s, methods.last()),
        ) + ") | "@ + decimal(about(s, methods.last())) + "\n"@
    }
}

/// The details of the findings, method by method.
pub open spec fn details_text(s: Seq<Finding>, methods: Seq<Seq<char>>) -> Seq<char>
    decreases methods.len(),
{
    if methods.len() == 0 {
        seq![]
    } else {
        details_text(s, methods.drop_last()) + "\n"@ + methods.last() + "\n"@ + method_details(
            s,
            methods.last(),
        )
    }
}

/// The text of a report.
pub open spec fn report_text(r: ConformanceReport, assistant: Seq<char>) -> Seq<char> {
    let s = r.findings@;
    let methods = methods_of(findings(s));
    "[conformance:"@ + target_label(r.target, assistant) + "] "@ + decimal(s.len()) + " finding(s)\n"@
        + "\nmethod | status | findings\n"@ + "--- | --- | ---\n"@ + (if s.len() == 0 {
        "(all) | PASS | 0\n"@
    } else {
        table_text(s, methods) + "\ndetailed findings\n"@ + details_text(s, methods)
    })
}

fn count_about(v: &Vec<Finding>, method: &str) -> (r: u64)
    ensures
        r == about(v@, method@),
{
    let mut n: u64 = 0;
    let mut i: usize = 0;
    while i < v.len()
        invariant
            i <= v@.len(),
            n == about(v@.take(i as int), method@),
            n <= i,
        decreases v@.len() - i,
    {
        assert(v@.take(i + 1).drop_last() =~= v@.take(i as int));
        assert(v@.take(i + 1).last() == v@[i as int]);
        if same(v[i].method(), method) {
            n += 1;
        }
        i += 1;
    }
    assert(v@.take(v@.len() as int) =~= v@);
    n
}

fn show_method(v: &Vec<Finding>, method: &str) -> (r: String)
    ensures
        r@ == method_details(v@, method@),
{
    let mut out = String::new();
    let mut n: u64 = 0;
    let mut i: usize = 0;
    assert(out@ =~= seq![]);
    while i < v.len()
        invariant
            i <= v@.len(),
            n == about(v@.take(i as int), method@),
            n <= i,
            out@ == method_details(v@.take(i as int), method@),
        decreases v@.len() - i,
    {
        assert(v@.take(i + 1).drop_last() =~= v@.take(i as int));
        assert(v@.take(i + 1).last() == v@[i as int]);
        if same(v[i].method(), method) {
            out.append("  #");
            out.append(decimal_u64(n).as_str());
            out.append(": ");
            out.append(write_finding_detail(&v[i]).as_str());
            n += 1;
        }
        i += 1;
    }
    assert(v@.take(v@.len() as int) =~= v@);
    out
}

impl ConformanceReport {
    /// Whether there is nothing to report.
    pub fn is_clean(&self) -> (r: bool)
        ensures
            r == (self.findings@.len() == 0),
    {
        self.findings.len() == 0
    }

    /// The methods with findings, in ascending order.
    pub fn failed_methods(&self) -> (r: TextSet)
        ensures
            r@ == methods_of(findings(self.findings@)),
    {
        let mut names: Vec<String> = Vec::new();
        let mut i: usize = 0;
        while i < self.findings.len()
            invariant
                i <= self.findings@.len(),
                names@.len() == i,
                forall|j: int|
                    0 <= j < i ==> (#[trigger] names@[j])@ == self.findings@[j].view().method(),
            decreases self.findings@.len() - i,
        {
            names.push(owned(self.findings[i].method()));
            i += 1;
        }
        assert(texts(names@) =~= findings(self.findings@).map_values(|f: FindingV| f.method()));
        set_of(&names)
    }

    /// The text of the report: a table of the methods with findings, then the
    /// findings themselves. `assistant` is the name of the coding
    /// assistant.
    pub fn render(&self, assistant: &AssistantName) -> (r: String)
        ensures
            r@ == report_text(*self, assistant@),
    {
        let mut out = String::new();
        out.append("[conformance:");
        out.append(self.target.label(assistant));
        out.append("] ");
        out.append(decimal_u64(self.findings.len() as u64).as_str());
        out.append(" finding(s)\n");
        out.append("\nmethod | status | findings\n");
        out.append("--- | --- | ---\n");
        if self.findings.len() == 0 {
            out.append("(all) | PASS | 0\n");
            assert(out@ =~= report_text(*self, assistant@));
            return out;
        }
        let methods = self.failed_methods();
        let n: usize = methods.len();
        let mut table = String::new();
        let mut details = String::new();
        assert(table@ =~= seq![]);
        assert(details@ =~= seq![]);
        let mut i: usize = 0;
        while i < n
            invariant
                i <= n,
                n == methods@.len(),
                table@ == table_text(self.findings@, methods@.take(i as int)),
                details@ == details_text(self.findings@, methods@.take(i as int)),
            decreases n - i,
        {
            assert(methods@.take(i + 1).drop_last() =~= methods@.take(i as int));
            assert(methods@.take(i + 1).last() == methods@[i as int]);
            let method = methods.at(i);
            let count: u64 = count_about(&self.findings, method);
            table.append(method);
            table.append(" | FAIL(");
            table.append(decimal_u64(count).as_str());
            table.append(") | ");
            table.append(decimal_u64(count).as_str());
            table.append("\n");
            details.append("\n");
            details.append(method);
            details.append("\n");
            details.append(show_method(&self.findings, method).as_str());
            i += 1;
        }
        assert(methods@.take(n as int) =~= methods@);
        out.append(table.as_str());
        out.append("\ndetailed findings\n");
        out.append(details.as_str());
        assert(out@ =~= report_text(*self, assistant@));
        out
    }
}

} // verus!
