//! The development database container and its start-up polling policy.
use vstd::prelude::*;

verus! {

/// The image the development database runs.
pub const POSTGRES_IMAGE: &'static str = "postgres:15";

/// How many readiness polls are made before giving up.
pub const MAX_READY_POLLS: u32 = 60;

/// The first wait between readiness polls, in milliseconds.
pub const BASE_DELAY_MS: u64 = 100;

/// A named database container.
pub struct Docker {
    name: String,
    image: String,
}

/// What went wrong with the container.
#[derive(Debug, Clone)]
pub enum DockerError {
    DockerNotRunning,
    PullError(String),
    InspectError(String),
    StartError(String),
    StopError(String),
    RemoveError(String),
    IoError(String),
}

impl Docker {
    /// A container called `name`, running the PostgreSQL image.
    pub fn new(name: &str) -> (r: Docker)
        ensures
            r.name()@ == name@,
            r.image()@ == POSTGRES_IMAGE@,
    {
        Docker { name: String::from_str(name), image: String::from_str(POSTGRES_IMAGE) }
    }

    pub closed spec fn name(&self) -> String {
        self.name
    }

    pub closed spec fn image(&self) -> String {
        self.image
    }

    /// The container's name.
    pub fn get_name(&self) -> (r: &String)
        ensures
            *r == self.name(),
    {
        &self.name
    }

    /// The container's image.
    pub fn get_image(&self) -> (r: &String)
        ensures
            *r == self.image(),
    {
        &self.image
    }
}

/// Two to the power `n`.
pub open spec fn two_pow(n: nat) -> nat
    decreases n,
{
    if n == 0 { 1 } else { 2 * two_pow((n - 1) as nat) }
}

/// The wait after the `attempts`-th failed readiness poll:
/// `100 * 2^attempts` milliseconds, saturating at `u64::MAX`.
pub open spec fn ready_delay(attempts: nat) -> int {
    let d = BASE_DELAY_MS * two_pow(attempts);
    if d > u64::MAX { u64::MAX as int } else { d as int }
}

/// After `attempts` failed readiness polls, how long to wait before the next
/// one, or `None` to give up.
pub fn next_ready_delay(attempts: u32) -> (r: Option<u64>)
    ensures
        attempts >= MAX_READY_POLLS ==> r is None,
        attempts < MAX_READY_POLLS ==> r == Some(ready_delay(attempts as nat) as u64),
{
    if attempts >= MAX_READY_POLLS {
        return None;
    }
    let mut d: u64 = BASE_DELAY_MS;
    let mut k: u32 = 0;
    while k < attempts
        invariant
            k <= attempts,
            d == ready_delay(k as nat),
        decreases attempts - k,
    {
        assert(two_pow((k + 1) as nat) == 2 * two_pow(k as nat));
        if d > u64::MAX / 2 {
            d = u64::MAX;
        } else {
            d = d * 2;
        }
        k += 1;
    }
    Some(d)
}

} // verus!
