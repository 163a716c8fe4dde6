use vstd::prelude::*;

verus! {

/// One configured job: a repository, the branch to follow, where its artifact
/// is deployed, and the cron-style schedule of its ticks.
pub struct JobConfig {
    pub url: String,
    pub branch: String,
    pub target_path: String,
    pub schedule: String,
}

impl JobConfig {
    /// Builds a configuration from its four parts.
    pub fn new(url: String, branch: String, target_path: String, schedule: String) -> (r: JobConfig)
        ensures
            r.url == url,
            r.branch == branch,
            r.target_path == target_path,
            r.schedule == schedule,
    {
        JobConfig { url, branch, target_path, schedule }
    }

    /// A field-by-field copy.
    pub fn duplicate(&self) -> (r: JobConfig)
        ensures
            r == *self,
    {
        JobConfig {
            url: self.url.clone(),
            branch: self.branch.clone(),
            target_path: self.target_path.clone(),
            schedule: self.schedule.clone(),
        }
    }
}

} // verus!
