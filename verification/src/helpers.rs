//! The commands that the operator's own image runs inside the jobs it
//! creates.

use vstd::prelude::*;
use crate::resources::ConfigMap;
use crate::controller::APP_INSTANCE_KEY;

verus! {

/// Commands used by the controller.
#[derive(Clone, Debug)]
pub enum Helper {
    /// Fetch an AppInstance resource and output to a file, without its
    /// status.
    FetchAppInstance { namespace: String, output: String, app_instance: String },
    /// Fetch the AppInstance that a config map holds and output to a file.
    FetchAppInstanceFromConfigMap { namespace: String, output: String, config_map: String },
}

/// Why the instance of a config map could not be had.
pub open spec fn payload_complaint(config_map: ConfigMap, name: Seq<char>) -> Option<Seq<char>> {
    if config_map.data is None {
        Some("ConfigMap "@ + name + " did not have a data field"@)
    } else if config_map.value_spec(APP_INSTANCE_KEY@) is None {
        Some("ConfigMap "@ + name + " data did not have an app-instance field"@)
    } else {
        None
    }
}

/// The text of the instance that the config map called `name` holds, or why
/// there is none.
pub fn app_instance_payload(config_map: &ConfigMap, name: &str) -> (r: Result<String, String>)
    ensures
        match payload_complaint(*config_map, name@) {
            Some(complaint) => r matches Err(m) && m@ == complaint,
            None => r matches Ok(text) && Some(text@) == config_map.value_spec(APP_INSTANCE_KEY@),
        },
{
    if config_map.data.is_none() {
        return Err(
            String::from_str("ConfigMap ").concat(name).concat(" did not have a data field"),
        );
    }
    match config_map.value_of(APP_INSTANCE_KEY) {
        Some(text) => Ok(text),
        None => Err(
            String::from_str("ConfigMap ").concat(name).concat(
                " data did not have an app-instance field",
            ),
        ),
    }
}

} // verus!
