//! Launching desktop applications by name.
use crate::text::{cat, owned, push_str, str_eq};
use vstd::prelude::*;

verus! {

/// The applications that can be opened: each name with the environment variable that holds
/// its path.
pub struct ApplicationService {
    applications: Vec<(String, String)>,
}

/// How a launch went.
pub enum LaunchOutcome {
    /// The environment variable is not set.
    VariableMissing,
    /// The process started.
    Started,
    /// The process could not be started.
    Failed,
}

/// The variable of the first application named `name`, from index `i` on.
pub open spec fn variable_from(apps: Seq<(String, String)>, name: Seq<char>, i: int) -> Option<Seq<char>>
    decreases apps.len() - i,
{
    if i < 0 || i >= apps.len() {
        None
    } else if apps[i].0@ == name {
        Some(apps[i].1@)
    } else {
        variable_from(apps, name, i + 1)
    }
}

/// The answer once the launch of `app_name` through `variable` was tried.
pub open spec fn launch_text(app_name: Seq<char>, variable: Seq<char>, outcome: LaunchOutcome) -> Seq<char> {
    match outcome {
        LaunchOutcome::VariableMissing => variable + " missing is .env"@,
        LaunchOutcome::Started => app_name + " successfully launched !"@,
        LaunchOutcome::Failed => "Launch failure of "@ + app_name + "."@,
    }
}

impl ApplicationService {
    /// The variable that holds the path of the application `name`.
    pub closed spec fn variable(&self, name: Seq<char>) -> Option<Seq<char>> {
        variable_from(self.applications@, name, 0)
    }

    /// The service for a configuration (`[applications]` of the configuration file).
    pub fn new(applications: Vec<(String, String)>) -> (r: Self)
        ensures
            forall|n: Seq<char>| r.variable(n) == variable_from(applications@, n, 0),
    {
        ApplicationService { applications }
    }

    /// The environment variable to read for `app_name`, or `Application not found.`.
    pub fn open(&self, app_name: &str) -> (r: Result<String, String>)
        ensures
            match self.variable(app_name@) {
                Some(v) => r is Ok && r->Ok_0@ == v,
                None => r is Err && r->Err_0@ == "Application not found."@,
            },
    {
        let mut i: usize = 0;
        while i < self.applications.len()
            invariant
                i <= self.applications@.len(),
                self.variable(app_name@) == variable_from(self.applications@, app_name@, i as int),
            decreases self.applications@.len() - i,
        {
            if str_eq(self.applications[i].0.as_str(), app_name) {
                return Ok(owned(self.applications[i].1.as_str()));
            }
            i = i + 1;
        }
        Err(owned("Application not found."))
    }

    /// The answer once a launch was tried.
    pub fn launch_reply(app_name: &str, variable: &str, outcome: LaunchOutcome) -> (r: String)
        ensures
            r@ == launch_text(app_name@, variable@, outcome),
    {
        match outcome {
            LaunchOutcome::VariableMissing => cat(variable, " missing is .env"),
            LaunchOutcome::Started => cat(app_name, " successfully launched !"),
            LaunchOutcome::Failed => {
                let mut r = owned("Launch failure of ");
                push_str(&mut r, app_name);
                push_str(&mut r, ".");
                r
            },
        }
    }
}

} // verus!
