//! The status report: the text that a validated request gets. Each collector's section
//! stands on its own, so that a collector that failed leaves an error line in its place
//! and the rest of the report is served all the same.

use vstd::prelude::*;
use crate::auth::AuthManager;
use crate::hardware_statistics::get_hardware_status;
use crate::hardware_statistics::hardware_status;
use crate::hardware_statistics::HardwareMonitorState;
use crate::hardware_statistics::HardwareSnapshot;
use crate::network::BYTES_PER_MEGABYTE;
use crate::text::decimal;
use crate::text::decimal_string;
use crate::text::line_block;
use crate::text::push_lines;
use crate::users::Credentials;

verus! {

/// What the collectors hand in for one report. A collector either gives its lines or
/// the text of its error.
#[derive(Debug)]
pub struct StatusInputs {
    /// The name of the system, as it is to be shown.
    pub system_name: String,
    /// The memory in use, in bytes.
    pub used_memory: u64,
    /// The processor usage in percent, as text with one decimal.
    pub cpu_usage: String,
    pub network: Result<Vec<String>, String>,
    pub traffic: Result<Vec<String>, String>,
    pub components: Result<Vec<String>, String>,
    pub disks: Result<Vec<String>, String>,
}

/// What a collector handed in, as contracts see it.
pub open spec fn collected(outcome: Result<Vec<String>, String>) -> Result<
    Seq<Seq<char>>,
    Seq<char>,
> {
    match outcome {
        Ok(lines) => Ok(lines.deep_view()),
        Err(error) => Err(error@),
    }
}

/// The inputs of a report as contracts see them.
pub struct StatusInputsView {
    pub system_name: Seq<char>,
    pub used_memory: u64,
    pub cpu_usage: Seq<char>,
    pub network: Result<Seq<Seq<char>>, Seq<char>>,
    pub traffic: Result<Seq<Seq<char>>, Seq<char>>,
    pub components: Result<Seq<Seq<char>>, Seq<char>>,
    pub disks: Result<Seq<Seq<char>>, Seq<char>>,
}

impl View for StatusInputs {
    type V = StatusInputsView;

    open spec fn view(&self) -> StatusInputsView {
        StatusInputsView {
            system_name: self.system_name@,
            used_memory: self.used_memory,
            cpu_usage: self.cpu_usage@,
            network: collected(self.network),
            traffic: collected(self.traffic),
            components: collected(self.components),
            disks: collected(self.disks),
        }
    }
}

/// The section of one collector: under `heading` its lines, indented, with `empty_note`
/// in front where there is no line; or, where the collector failed, `failure` and the
/// text of the error on one line.
pub open spec fn section(
    heading: Seq<char>,
    empty_note: Seq<char>,
    failure: Seq<char>,
    outcome: Result<Seq<Seq<char>>, Seq<char>>,
) -> Seq<char> {
    match outcome {
        Ok(lines) => heading + (if lines.len() == 0 {
            empty_note
        } else {
            Seq::empty()
        }) + line_block("  "@, lines),
        Err(error) => failure + error + "\n"@,
    }
}

/// The access token that the report advertises: that of the user registered first, or
/// nothing where no user is registered.
pub open spec fn advertised_token(store: Credentials) -> Seq<char> {
    if store.users.len() > 0 {
        store.users.first().access_token
    } else {
        Seq::empty()
    }
}

/// The whole report.
pub open spec fn status_report(
    inputs: StatusInputsView,
    hardware: HardwareSnapshot,
    store: Credentials,
) -> Seq<char> {
    "System name: "@ + inputs.system_name + "\n"@ + "Memory in Use: "@ + decimal(
        (inputs.used_memory / BYTES_PER_MEGABYTE) as nat,
    ) + " MB\n"@ + "CPU usage: "@ + inputs.cpu_usage + "%\n"@ + hardware_status(hardware)
        + section(
        "\nNetwork Statistics (Total):\n"@,
        ""@,
        "\nError getting network stats: "@,
        inputs.network,
    ) + section(
        "\nCurrent Network Traffic:\n"@,
        ""@,
        "\nError getting network traffic: "@,
        inputs.traffic,
    ) + section(
        "\nComponents:\n"@,
        "No Components Found\n"@,
        "\nError checking components: "@,
        inputs.components,
    ) + section("\nDisks:\n"@, "No Disks Found\n"@, "\nError checking disks: "@, inputs.disks)
        + "\nAccess URL: http://localhost:3000/?token="@ + advertised_token(store)
}

/// Appends the section of one collector to `out`.
fn push_section(
    out: &mut String,
    heading: &str,
    empty_note: &str,
    failure: &str,
    outcome: &Result<Vec<String>, String>,
)
    ensures
        final(out)@ == old(out)@ + section(heading@, empty_note@, failure@, collected(*outcome)),
{
    match outcome {
        Ok(lines) => {
            out.append(heading);
            if lines.len() == 0 {
                out.append(empty_note);
            }
            push_lines(out, "  ", lines);
            assert(out@ =~= old(out)@ + (heading@ + (if lines.deep_view().len() == 0 {
                empty_note@
            } else {
                Seq::empty()
            }) + line_block("  "@, lines.deep_view())));
        },
        Err(error) => {
            out.append(failure);
            out.append(error.as_str());
            out.append("\n");
            assert(out@ =~= old(out)@ + (failure@ + error@ + "\n"@));
        },
    }
}

/// Writes the status report from what the collectors handed in, the cached hardware
/// snapshot and the credential store.
pub fn status(inputs: &StatusInputs, hardware_state: &HardwareMonitorState, store: &AuthManager)
    -> (out: String)
    ensures
        out@ == status_report(inputs@, hardware_state@, store@),
{
    let token = store.first_access_token();
    let mut out = String::new();
    out.append("System name: ");
    out.append(inputs.system_name.as_str());
    out.append("\n");
    out.append("Memory in Use: ");
    out.append(decimal_string(inputs.used_memory / BYTES_PER_MEGABYTE).as_str());
    out.append(" MB\n");
    out.append("CPU usage: ");
    out.append(inputs.cpu_usage.as_str());
    out.append("%\n");
    out.append(get_hardware_status(hardware_state).as_str());
    push_section(
        &mut out,
        "\nNetwork Statistics (Total):\n",
        "",
        "\nError getting network stats: ",
        &inputs.network,
    );
    push_section(
        &mut out,
        "\nCurrent Network Traffic:\n",
        "",
        "\nError getting network traffic: ",
        &inputs.traffic,
    );
    push_section(
        &mut out,
        "\nComponents:\n",
        "No Components Found\n",
        "\nError checking components: ",
        &inputs.components,
    );
    push_section(
        &mut out,
        "\nDisks:\n",
        "No Disks Found\n",
        "\nError checking disks: ",
        &inputs.disks,
    );
    out.append("\nAccess URL: http://localhost:3000/?token=");
    out.append(token.as_str());
    assert(out@ =~= status_report(inputs@, hardware_state@, store@));
    out
}

} // verus!
