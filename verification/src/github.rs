//! The GitHub reader's transport: the `gh` CLI first when asked for, the
//! unauthenticated REST API otherwise or when `gh` fails.

use vstd::prelude::*;
use crate::text::push_str;

verus! {

/// Where an API path is fetched from over REST.
pub fn github_api_url(api_path: &str) -> (r: String)
    ensures
        r@ == "https://api.github.com/"@ + api_path@,
{
    let mut url = "https://api.github.com/".to_owned();
    push_str(&mut url, api_path);
    url
}

/// The refusal of a REST answer with a failing status.
pub fn github_status_error(status: &str, body: &str) -> (r: String)
    ensures
        r@ == "GitHub API returned "@ + status@ + ": "@ + body@,
{
    let mut m = "GitHub API returned ".to_owned();
    push_str(&mut m, status);
    push_str(&mut m, ": ");
    push_str(&mut m, body);
    m
}

/// The failure of a `gh` run that exited unsuccessfully.
pub fn gh_exit_error(status: &str, stderr: &str) -> (r: String)
    ensures
        r@ == "gh exited "@ + status@ + ": "@ + stderr@,
{
    let mut m = "gh exited ".to_owned();
    push_str(&mut m, status);
    push_str(&mut m, ": ");
    push_str(&mut m, stderr);
    m
}

/// Which transport a fetch tries next.
#[derive(Debug, Clone, Copy, PartialEq, Eq, Structural)]
pub enum GithubRoute {
    Cli,
    Rest,
}

/// The transport a fetch starts with: the CLI when asked for, else REST.
pub fn first_github_route(use_gh: bool) -> (r: GithubRoute)
    ensures
        r == (if use_gh {
            GithubRoute::Cli
        } else {
            GithubRoute::Rest
        }),
{
    if use_gh {
        GithubRoute::Cli
    } else {
        GithubRoute::Rest
    }
}

/// What follows a transport's answer: a CLI failure falls back to REST;
/// anything else is the fetch's result.
pub fn after_github_attempt(route: GithubRoute, succeeded: bool) -> (next: Option<GithubRoute>)
    ensures
        next == (if route == GithubRoute::Cli && !succeeded {
            Some(GithubRoute::Rest)
        } else {
            None::<GithubRoute>
        }),
{
    match route {
        GithubRoute::Cli => if succeeded {
            None
        } else {
            Some(GithubRoute::Rest)
        },
        GithubRoute::Rest => None,
    }
}

} // verus!
