//! The branch description a run collects, and the two strings derived
//! from it: the branch name and the full `git checkout -b` command line.

use vstd::prelude::*;

verus! {

/// Mathematical model of a branch description: the four collected fields
/// as character sequences.
pub ghost struct BranchView {
    pub prefix: Seq<char>,
    pub reference: Seq<char>,
    pub description: Seq<char>,
    pub start_branch: Seq<char>,
}

/// The branch name derived from a description: the prefix, the reference
/// (when one was given) and the description, joined with `/`.
pub open spec fn branch_name_spec(v: BranchView) -> Seq<char> {
    if v.reference.len() > 0 {
        v.prefix + "/"@ + v.reference + "/"@ + v.description
    } else {
        v.prefix + "/"@ + v.description
    }
}

/// The command derived from a description: `git checkout -b` with the
/// branch name, and the start branch appended when one was given.
pub open spec fn git_command_spec(v: BranchView) -> Seq<char> {
    if v.start_branch.len() > 0 {
        "git checkout -b "@ + branch_name_spec(v) + " "@ + v.start_branch
    } else {
        "git checkout -b "@ + branch_name_spec(v)
    }
}

/// A branch description collected from the user. `reference` and
/// `start_branch` may be empty, which stands for "not given"; the raw
/// text of every field is kept verbatim.
pub struct BranchInfo {
    pub prefix: String,
    pub reference: String,
    pub description: String,
    pub start_branch: String,
}

impl View for BranchInfo {
    type V = BranchView;

    open spec fn view(&self) -> BranchView {
        BranchView {
            prefix: self.prefix@,
            reference: self.reference@,
            description: self.description@,
            start_branch: self.start_branch@,
        }
    }
}

impl BranchInfo {
    /// Builds a description from the four collected answers, verbatim.
    pub fn new(
        prefix: String,
        reference: String,
        description: String,
        start_branch: String,
    ) -> (r: BranchInfo)
        ensures
            r@ == (BranchView {
                prefix: prefix@,
                reference: reference@,
                description: description@,
                start_branch: start_branch@,
            }),
    {
        BranchInfo { prefix, reference, description, start_branch }
    }

    /// Derives the branch name.
    pub fn generate_branch_name(&self) -> (r: String)
        ensures
            r@ == branch_name_spec(self@),
    {
        let mut s = self.prefix.clone();
        if !self.reference.as_str().is_empty() {
            s.append("/");
            s.append(self.reference.as_str());
        }
        s.append("/");
        s.append(self.description.as_str());
        proof {
            assert(s@ =~= branch_name_spec(self@));
        }
        s
    }

    /// Derives the full command line.
    pub fn generate_git_command(&self) -> (r: String)
        ensures
            r@ == git_command_spec(self@),
    {
        let mut s = String::from_str("git checkout -b ");
        let name = self.generate_branch_name();
        s.append(name.as_str());
        if !self.start_branch.as_str().is_empty() {
            s.append(" ");
            s.append(self.start_branch.as_str());
        }
        proof {
            assert(s@ =~= git_command_spec(self@));
        }
        s
    }
}

/// With a reference given, the branch name is the three fields joined
/// with `/`.
pub proof fn lemma_branch_name_with_reference(v: BranchView)
    requires
        v.reference.len() > 0,
    ensures
        branch_name_spec(v) == v.prefix + "/"@ + v.reference + "/"@ + v.description,
{
}

/// With no reference, the branch name is the prefix and the description
/// joined with `/`.
pub proof fn lemma_branch_name_without_reference(v: BranchView)
    requires
        v.reference.len() == 0,
    ensures
        branch_name_spec(v) == v.prefix + "/"@ + v.description,
{
}

/// With a start branch given, the command is `git checkout -b`, the
/// branch name, a space, and the start branch.
pub proof fn lemma_git_command_with_start(v: BranchView)
    requires
        v.start_branch.len() > 0,
    ensures
        git_command_spec(v) == "git checkout -b "@ + branch_name_spec(v) + " "@ + v.start_branch,
{
}

/// With no start branch, the command is `git checkout -b` followed by
/// the branch name alone.
pub proof fn lemma_git_command_without_start(v: BranchView)
    requires
        v.start_branch.len() == 0,
    ensures
        git_command_spec(v) == "git checkout -b "@ + branch_name_spec(v),
{
}

/// Both derivations are functions of the description's value alone:
/// any two results obtained from equal descriptions are identical.
pub proof fn lemma_derivations_deterministic(
    v: BranchView,
    name1: Seq<char>,
    name2: Seq<char>,
    command1: Seq<char>,
    command2: Seq<char>,
)
    requires
        name1 == branch_name_spec(v),
        name2 == branch_name_spec(v),
        command1 == git_command_spec(v),
        command2 == git_command_spec(v),
    ensures
        name1 == name2,
        command1 == command2,
{
}

} // verus!
