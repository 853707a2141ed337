use vstd::prelude::*;
use vstd::string::StringExecFns;

verus! {

/// Every failure the library reports, or that its callers relay through it.
///
/// The variants that the verified functions themselves produce are
/// `ServerNotFound`, `ContainerNotFound`, `NoServerConfigured`, `GraphQl` and
/// `NoData`; the remaining variants carry failures of the file and network
/// layers that sit outside this crate.
#[derive(Debug, Clone)]
pub enum UnraidError {
    /// A profile name that is not present in the store.
    ServerNotFound { name: String },
    /// A container name that matched no alias of any listed container.
    ContainerNotFound { name: String },
    /// No CLI pair, environment pair, or stored profile yielded an endpoint.
    NoServerConfigured,
    /// The server answered with a non-empty error list; the messages are
    /// joined with ", ".
    GraphQl { message: String },
    /// A well-formed envelope carried neither data nor errors.
    NoData,
    /// The HTTP exchange failed before an envelope was received.
    Transport { message: String },
    /// The response body was not a well-formed envelope.
    Decode { message: String },
    /// The config file could not be read or written.
    Io { message: String },
    /// The config file was present but malformed.
    Parse { message: String },
}

impl UnraidError {
    /// The one-line description shown to the user, as a sequence of characters.
    pub open spec fn message_view(self) -> Seq<char> {
        match self {
            UnraidError::ServerNotFound { name } => "Server '"@ + name@
                + "' not found in configuration"@,
            UnraidError::ContainerNotFound { name } => "Container '"@ + name@
                + "' not found. Use 'docker list-containers --all' to see available containers."@,
            UnraidError::NoServerConfigured =>
                "No server configured. Use 'unraid config add <name>' to add a server, or set UNRAID_URL and UNRAID_API_KEY environment variables."@,
            UnraidError::GraphQl { message } => "GraphQL errors: "@ + message@,
            UnraidError::NoData => "No data returned from GraphQL query"@,
            UnraidError::Transport { message } => "Failed to send GraphQL request: "@ + message@,
            UnraidError::Decode { message } => "Failed to parse GraphQL response: "@ + message@,
            UnraidError::Io { message } => "Config file error: "@ + message@,
            UnraidError::Parse { message } => "Failed to parse config file: "@ + message@,
        }
    }

    /// Renders the description that `message_view` states.
    pub fn message(&self) -> (r: String)
        ensures
            r@ == self.message_view(),
    {
        match self {
            UnraidError::ServerNotFound { name } => String::from_str("Server '").concat(
                name.as_str(),
            ).concat("' not found in configuration"),
            UnraidError::ContainerNotFound { name } => String::from_str("Container '").concat(
                name.as_str(),
            ).concat("' not found. Use 'docker list-containers --all' to see available containers."),
            UnraidError::NoServerConfigured => String::from_str(
                "No server configured. Use 'unraid config add <name>' to add a server, or set UNRAID_URL and UNRAID_API_KEY environment variables.",
            ),
            UnraidError::GraphQl { message } => String::from_str("GraphQL errors: ").concat(
                message.as_str(),
            ),
            UnraidError::NoData => String::from_str("No data returned from GraphQL query"),
            UnraidError::Transport { message } => String::from_str(
                "Failed to send GraphQL request: ",
            ).concat(message.as_str()),
            UnraidError::Decode { message } => String::from_str(
                "Failed to parse GraphQL response: ",
            ).concat(message.as_str()),
            UnraidError::Io { message } => String::from_str("Config file error: ").concat(
                message.as_str(),
            ),
            UnraidError::Parse { message } => String::from_str(
                "Failed to parse config file: ",
            ).concat(message.as_str()),
        }
    }
}

} // verus!
