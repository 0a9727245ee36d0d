//! The starter library seeded on first launch, when no library exists yet:
//! examples of common Git workflows and AI prompt templates.
use vstd::prelude::*;

use crate::model::Snippet;

verus! {

/// Title, category and body of the `i`-th starter snippet.
pub open spec fn seed_entry(i: int) -> (Seq<char>, Seq<char>, Seq<char>) {
    if i == 0 {
        ("Update all repos (PowerShell)"@, "Git"@, "# Pull latest on every git repo one level under the current folder\r\nGet-ChildItem -Directory | Where-Object { Test-Path \"$($_.FullName)\\.git\" } | ForEach-Object {\r\n    Write-Host \"== $($_.Name) ==\" -ForegroundColor Cyan\r\n    git -C $_.FullName pull --ff-only\r\n}"@)
    } else if i == 1 {
        ("Update all repos (bash)"@, "Git"@, "#!/usr/bin/env bash\n# Pull latest on every git repo under the current directory\nfind . -maxdepth 2 -type d -name .git | while read -r gitdir; do\n  repo=\"$(dirname \"$gitdir\")\"\n  echo \"== $repo ==\"\n  git -C \"$repo\" pull --ff-only\ndone"@)
    } else if i == 2 {
        ("Discard all local changes"@, "Git"@, "# Throw away uncommitted changes and untracked files (irreversible)\ngit reset --hard HEAD\ngit clean -fd"@)
    } else if i == 3 {
        ("Summarize this conversation"@, "Prompt"@, "Summarize our conversation so far into a concise brief. Include:\n1. The objective\n2. Key decisions and their rationale\n3. Any code/artifacts produced (reference by name)\n4. Open questions\n5. Concrete next steps\n\nUse tight bullet points. Omit small talk."@)
    } else if i == 4 {
        ("Generate documentation"@, "Prompt"@, "You are a senior technical writer. Given the code/context below, produce clear documentation covering: purpose, prerequisites, setup/usage with examples, configuration options, and common pitfalls. Prefer prose with short code blocks. Do not invent behavior that isn't present in the source.\n\n---\n<paste code/context here>"@)
    } else if i == 5 {
        ("Session handoff / context transfer"@, "Prompt"@, "Export the full context of this session into a single self-contained block I can paste into a fresh chat to continue seamlessly. Include, verbatim where it matters:\n- Current objective\n- The narrative of what we've done\n- Decisions made (with rationale)\n- All artifacts in full\n- Open questions\n- Immediate next steps\n\nWrite it so a model with zero prior context can pick up exactly where we left off."@)
    } else {
        (seq![], seq![], seq![])
    }
}

fn push_seed(out: &mut Vec<Snippet>, id: u64, title: &str, category: &str, body: &str)
    ensures
        final(out)@ == old(out)@.push(
            Snippet {
                id,
                title: final(out)@.last().title,
                description: final(out)@.last().description,
                category: final(out)@.last().category,
                body: final(out)@.last().body,
                protection: None,
            },
        ),
        final(out)@.last().title@ == title@,
        final(out)@.last().category@ == category@,
        final(out)@.last().body@ == body@,
        final(out)@.last().description@.len() == 0,
{
    out.push(
        Snippet {
            id,
            title: String::from_str(title),
            description: String::new(),
            category: String::from_str(category),
            body: String::from_str(body),
            protection: None,
        },
    );
}

/// `s` is the starter library: the six starter snippets with ids 1 to 6 in
/// this order.
pub open spec fn is_seed_library(s: Seq<Snippet>) -> bool {
    &&& s.len() == 6
    &&& forall|i: int|
        0 <= i < 6 ==> {
            &&& #[trigger] s[i].id == i + 1
            &&& s[i].title@ == seed_entry(i).0
            &&& s[i].category@ == seed_entry(i).1
            &&& s[i].body@ == seed_entry(i).2
            &&& s[i].description@.len() == 0
            &&& s[i].protection is None
        }
}

/// The starter library: six snippets with ids 1 to 6 in this order.
pub fn defaults() -> (r: Vec<Snippet>)
    ensures
        is_seed_library(r@),
{
    let mut out: Vec<Snippet> = Vec::new();
    push_seed(&mut out, 1, "Update all repos (PowerShell)", "Git", "# Pull latest on every git repo one level under the current folder\r\nGet-ChildItem -Directory | Where-Object { Test-Path \"$($_.FullName)\\.git\" } | ForEach-Object {\r\n    Write-Host \"== $($_.Name) ==\" -ForegroundColor Cyan\r\n    git -C $_.FullName pull --ff-only\r\n}");
    push_seed(&mut out, 2, "Update all repos (bash)", "Git", "#!/usr/bin/env bash\n# Pull latest on every git repo under the current directory\nfind . -maxdepth 2 -type d -name .git | while read -r gitdir; do\n  repo=\"$(dirname \"$gitdir\")\"\n  echo \"== $repo ==\"\n  git -C \"$repo\" pull --ff-only\ndone");
    push_seed(&mut out, 3, "Discard all local changes", "Git", "# Throw away uncommitted changes and untracked files (irreversible)\ngit reset --hard HEAD\ngit clean -fd");
    push_seed(&mut out, 4, "Summarize this conversation", "Prompt", "Summarize our conversation so far into a concise brief. Include:\n1. The objective\n2. Key decisions and their rationale\n3. Any code/artifacts produced (reference by name)\n4. Open questions\n5. Concrete next steps\n\nUse tight bullet points. Omit small talk.");
    push_seed(&mut out, 5, "Generate documentation", "Prompt", "You are a senior technical writer. Given the code/context below, produce clear documentation covering: purpose, prerequisites, setup/usage with examples, configuration options, and common pitfalls. Prefer prose with short code blocks. Do not invent behavior that isn't present in the source.\n\n---\n<paste code/context here>");
    push_seed(&mut out, 6, "Session handoff / context transfer", "Prompt", "Export the full context of this session into a single self-contained block I can paste into a fresh chat to continue seamlessly. Include, verbatim where it matters:\n- Current objective\n- The narrative of what we've done\n- Decisions made (with rationale)\n- All artifacts in full\n- Open questions\n- Immediate next steps\n\nWrite it so a model with zero prior context can pick up exactly where we left off.");
    out
}

} // verus!
