use vstd::prelude::*;
use vstd::string::StringExecFns;

verus! {

/// Custom error type for simple_git_cicd operations
#[derive(Debug)]
pub enum CicdError {
    GitOperationFailed { operation: String, message: String },
    ScriptExecutionFailed(String),
    ConfigError(String),
    WebhookValidationFailed(String),
    DatabaseError(String),
}

impl CicdError {
    /// The human-readable summary of this error.
    pub open spec fn spec_message(&self) -> Seq<char> {
        match self {
            CicdError::GitOperationFailed { operation, message } => "Git operation failed: "@
                + operation@ + "\n"@ + message@,
            CicdError::ScriptExecutionFailed(m) => "Script execution failed: "@ + m@,
            CicdError::ConfigError(m) => "Configuration error: "@ + m@,
            CicdError::WebhookValidationFailed(m) => "Webhook validation failed: "@ + m@,
            CicdError::DatabaseError(m) => "Database error: "@ + m@,
        }
    }

    /// Renders the human-readable summary of this error.
    pub fn message(&self) -> (r: String)
        ensures
            r@ == self.spec_message(),
    {
        match self {
            CicdError::GitOperationFailed { operation, message } => {
                let mut s = String::new();
                s.append("Git operation failed: ");
                s.append(operation.as_str());
                s.append("\n");
                s.append(message.as_str());
                proof {
                    assert(s@ =~= self.spec_message());
                }
                s
            },
            CicdError::ScriptExecutionFailed(m) => {
                let mut s = String::new();
                s.append("Script execution failed: ");
                s.append(m.as_str());
                proof {
                    assert(s@ =~= self.spec_message());
                }
                s
            },
            CicdError::ConfigError(m) => {
                let mut s = String::new();
                s.append("Configuration error: ");
                s.append(m.as_str());
                proof {
                    assert(s@ =~= self.spec_message());
                }
                s
            },
            CicdError::WebhookValidationFailed(m) => {
                let mut s = String::new();
                s.append("Webhook validation failed: ");
                s.append(m.as_str());
                proof {
                    assert(s@ =~= self.spec_message());
                }
                s
            },
            CicdError::DatabaseError(m) => {
                let mut s = String::new();
                s.append("Database error: ");
                s.append(m.as_str());
                proof {
                    assert(s@ =~= self.spec_message());
                }
                s
            },
        }
    }
}

} // verus!
