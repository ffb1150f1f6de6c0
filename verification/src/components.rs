//! The component section of the status report: one line for each sensor.

use vstd::prelude::*;

verus! {

/// One sensor of the machine.
#[derive(Clone, Debug)]
pub struct ComponentReading {
    pub label: String,
    /// The temperature in degrees Celsius, as text with one decimal, where it was read.
    pub temperature: Option<String>,
}

/// The line that reports one sensor.
pub open spec fn component_line(label: Seq<char>, temperature: Option<Seq<char>>) -> Seq<char> {
    match temperature {
        Some(degrees) => label + ": "@ + degrees + "°C"@,
        None => label + ": Temperature Unavailable"@,
    }
}

/// The lines that report `components`: one for each, or a single note where there is
/// none.
pub open spec fn component_lines(components: Seq<ComponentReading>) -> Seq<Seq<char>> {
    if components.len() == 0 {
        seq!["No system components were detected."@]
    } else {
        Seq::new(
            components.len(),
            |i: int|
                component_line(
                    components[i].label@,
                    match components[i].temperature {
                        Some(degrees) => Some(degrees@),
                        None => None,
                    },
                ),
        )
    }
}

/// Writes the lines that report `components`.
pub fn check_components(components: &Vec<ComponentReading>) -> (result: Vec<String>)
    ensures
        result.deep_view() == component_lines(components@),
{
    let mut result: Vec<String> = Vec::new();
    let ghost wanted = component_lines(components@);
    let mut i: usize = 0;
    while i < components.len()
        invariant
            i <= components.len(),
            result.len() == i,
            forall|j: int|
                0 <= j < i ==> (#[trigger] result[j])@ == component_line(
                    components[j].label@,
                    match components[j].temperature {
                        Some(degrees) => Some(degrees@),
                        None => None,
                    },
                ),
        decreases components.len() - i,
    {
        let component = &components[i];
        let mut line = String::from_str(component.label.as_str());
        match &component.temperature {
            Some(degrees) => {
                line.append(": ");
                line.append(degrees.as_str());
                line.append("°C");
            },
            None => {
                line.append(": Temperature Unavailable");
            },
        }
        result.push(line);
        i += 1;
    }
    if result.len() == 0 {
        result.push(String::from_str("No system components were detected."));
    }
    assert(result.deep_view() =~= wanted);
    result
}

} // verus!
