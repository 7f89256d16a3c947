//! The reasons for which an Orivex entry point rejects a call. Each variant
//! carries the message that the contract reports for it.

use vstd::prelude::*;

verus! {

/// Why an entry point rejected a call. A rejected call changes no state.
#[derive(Clone, Copy, Debug, PartialEq, Eq, Structural)]
pub enum Error {
    /// "Already initialized": the contract's configuration is already set.
    AlreadyInitialized,
    /// "Contract not initialized": the admin is not set (reported by the course, badge and governance entry points).
    ContractNotInitialized,
    /// "Not initialized": a required configuration slot is not set.
    NotInitialized,
    /// "Unauthorized: Caller is not the authorized registry": the caller is not the badge contract's registry.
    UnauthorizedRegistry,
    /// "Unauthorized: Caller is not the protocol admin": the caller is not the course registry's protocol admin.
    UnauthorizedProtocolAdmin,
    /// "Unauthorized": the caller may not perform the action.
    Unauthorized,
    /// "Badge for this course already exists": the learner already holds a badge for the course.
    BadgeAlreadyExists,
    /// "Badge limit reached for this learner": the learner already holds the most badges allowed.
    BadgeLimitReached,
    /// "total_modules must be greater than 0": a course must have at least one module.
    TotalModulesZero,
    /// "Course not found": no course is stored under the id.
    CourseNotFound,
    /// "Course is not active": the course does not accept enrollments.
    CourseNotActive,
    /// "Learner already enrolled": the learner already has a progress record.
    AlreadyEnrolled,
    /// "Unauthorized: Caller is not the course instructor": the caller is not the course's instructor.
    NotCourseInstructor,
    /// "Course already completed": the learner has completed every module.
    CourseAlreadyCompleted,
    /// "Already voted": the voter already voted on the proposal.
    AlreadyVoted,
    /// "Proposal not found": no proposal is stored under the id.
    ProposalNotFound,
    /// "Vote overflow": a vote tally would exceed its range.
    VoteOverflow,
    /// "Voting ended": the voting period is over.
    VotingEnded,
    /// "Already executed": the proposal is executed or cancelled.
    AlreadyExecuted,
    /// "Voting still active": the voting period is not over.
    VotingStillActive,
    /// "Proposal rejected": the proposal does not have more votes for than against.
    ProposalRejected,
    /// "Unauthorized: Caller is not the admin": the caller is not the admin.
    NotAdmin,
    /// "No pending admin transfer": no admin transfer is pending.
    NoPendingAdminTransfer,
    /// "Unauthorized: Acceptor is not the proposed admin": the acceptor is not the proposed admin.
    NotProposedAdmin,
    /// "Unauthorized: only proposer or current admin can cancel": the caller is neither the proposed address nor the admin.
    CancelNotAllowed,
    /// "No pending BadgeContract transfer": no badge contract transfer is pending.
    NoPendingBadgeContractTransfer,
    /// "Unauthorized: Acceptor is not the proposed BadgeContract": the acceptor is not the proposed badge contract.
    NotProposedBadgeContract,
    /// "No pending RewardPool transfer": no reward pool transfer is pending.
    NoPendingRewardPoolTransfer,
    /// "Unauthorized: Acceptor is not the proposed RewardPool": the acceptor is not the proposed reward pool.
    NotProposedRewardPool,
    /// "No pending StakeVault transfer": no stake vault transfer is pending.
    NoPendingStakeVaultTransfer,
    /// "Unauthorized: Acceptor is not the proposed StakeVault": the acceptor is not the proposed stake vault.
    NotProposedStakeVault,
    /// "Contract is paused": the contract is paused.
    ContractPaused,
    /// "Quest not found": no quest is stored under the id.
    QuestNotFound,
    /// "Quest is not active": the quest no longer accepts submissions.
    QuestNotActive,
    /// "Only Build quests accept submissions": the quest is not a Build quest.
    OnlyBuildQuests,
    /// "Submission already exists": the learner already submitted a proof for the quest.
    SubmissionExists,
    /// "Only the quest employer can review submissions": the caller is not the quest's employer.
    NotQuestEmployer,
    /// "Submission not found": no submission is stored for the learner and quest.
    SubmissionNotFound,
    /// "Submission is not pending review": the submission was already reviewed.
    SubmissionNotPending,
    /// "Quest already inactive": the quest was already refunded.
    QuestAlreadyInactive,
    /// "Only Build quests can be refunded": only a Build quest has a locked reward to return.
    NotBuildQuest,
    /// "Not an Explore quest": the quest is not an Explore quest.
    NotExploreQuest,
    /// "Amount must be positive": the amount is zero or negative.
    AmountNotPositive,
    /// "Caller is not an authorized spender": the caller is not on the spender allowlist.
    NotAuthorizedSpender,
    /// "No stake found": the user has no stake.
    NoStakeFound,
    /// "Lock period active": the stake is still locked.
    LockPeriodActive,
}

/// The message that the contracts report for each error.
pub open spec fn error_message(e: Error) -> Seq<char> {
    match e {
        Error::AlreadyInitialized => "Already initialized"@,
        Error::ContractNotInitialized => "Contract not initialized"@,
        Error::NotInitialized => "Not initialized"@,
        Error::UnauthorizedRegistry => "Unauthorized: Caller is not the authorized registry"@,
        Error::UnauthorizedProtocolAdmin => "Unauthorized: Caller is not the protocol admin"@,
        Error::Unauthorized => "Unauthorized"@,
        Error::BadgeAlreadyExists => "Badge for this course already exists"@,
        Error::BadgeLimitReached => "Badge limit reached for this learner"@,
        Error::TotalModulesZero => "total_modules must be greater than 0"@,
        Error::CourseNotFound => "Course not found"@,
        Error::CourseNotActive => "Course is not active"@,
        Error::AlreadyEnrolled => "Learner already enrolled"@,
        Error::NotCourseInstructor => "Unauthorized: Caller is not the course instructor"@,
        Error::CourseAlreadyCompleted => "Course already completed"@,
        Error::AlreadyVoted => "Already voted"@,
        Error::ProposalNotFound => "Proposal not found"@,
        Error::VoteOverflow => "Vote overflow"@,
        Error::VotingEnded => "Voting ended"@,
        Error::AlreadyExecuted => "Already executed"@,
        Error::VotingStillActive => "Voting still active"@,
        Error::ProposalRejected => "Proposal rejected"@,
        Error::NotAdmin => "Unauthorized: Caller is not the admin"@,
        Error::NoPendingAdminTransfer => "No pending admin transfer"@,
        Error::NotProposedAdmin => "Unauthorized: Acceptor is not the proposed admin"@,
        Error::CancelNotAllowed => "Unauthorized: only proposer or current admin can cancel"@,
        Error::NoPendingBadgeContractTransfer => "No pending BadgeContract transfer"@,
        Error::NotProposedBadgeContract => "Unauthorized: Acceptor is not the proposed BadgeContract"@,
        Error::NoPendingRewardPoolTransfer => "No pending RewardPool transfer"@,
        Error::NotProposedRewardPool => "Unauthorized: Acceptor is not the proposed RewardPool"@,
        Error::NoPendingStakeVaultTransfer => "No pending StakeVault transfer"@,
        Error::NotProposedStakeVault => "Unauthorized: Acceptor is not the proposed StakeVault"@,
        Error::ContractPaused => "Contract is paused"@,
        Error::QuestNotFound => "Quest not found"@,
        Error::QuestNotActive => "Quest is not active"@,
        Error::OnlyBuildQuests => "Only Build quests accept submissions"@,
        Error::SubmissionExists => "Submission already exists"@,
        Error::NotQuestEmployer => "Only the quest employer can review submissions"@,
        Error::SubmissionNotFound => "Submission not found"@,
        Error::SubmissionNotPending => "Submission is not pending review"@,
        Error::QuestAlreadyInactive => "Quest already inactive"@,
        Error::NotBuildQuest => "Only Build quests can be refunded"@,
        Error::NotExploreQuest => "Not an Explore quest"@,
        Error::AmountNotPositive => "Amount must be positive"@,
        Error::NotAuthorizedSpender => "Caller is not an authorized spender"@,
        Error::NoStakeFound => "No stake found"@,
        Error::LockPeriodActive => "Lock period active"@,
    }
}

impl Error {
    /// Returns the message that the contract reports for this error.
    pub fn message(&self) -> (m: &'static str)
        ensures
            m@ == error_message(*self),
    {
        match self {
            Error::AlreadyInitialized => "Already initialized",
            Error::ContractNotInitialized => "Contract not initialized",
            Error::NotInitialized => "Not initialized",
            Error::UnauthorizedRegistry => "Unauthorized: Caller is not the authorized registry",
            Error::UnauthorizedProtocolAdmin => "Unauthorized: Caller is not the protocol admin",
            Error::Unauthorized => "Unauthorized",
            Error::BadgeAlreadyExists => "Badge for this course already exists",
            Error::BadgeLimitReached => "Badge limit reached for this learner",
            Error::TotalModulesZero => "total_modules must be greater than 0",
            Error::CourseNotFound => "Course not found",
            Error::CourseNotActive => "Course is not active",
            Error::AlreadyEnrolled => "Learner already enrolled",
            Error::NotCourseInstructor => "Unauthorized: Caller is not the course instructor",
            Error::CourseAlreadyCompleted => "Course already completed",
            Error::AlreadyVoted => "Already voted",
            Error::ProposalNotFound => "Proposal not found",
            Error::VoteOverflow => "Vote overflow",
            Error::VotingEnded => "Voting ended",
            Error::AlreadyExecuted => "Already executed",
            Error::VotingStillActive => "Voting still active",
            Error::ProposalRejected => "Proposal rejected",
            Error::NotAdmin => "Unauthorized: Caller is not the admin",
            Error::NoPendingAdminTransfer => "No pending admin transfer",
            Error::NotProposedAdmin => "Unauthorized: Acceptor is not the proposed admin",
            Error::CancelNotAllowed => "Unauthorized: only proposer or current admin can cancel",
            Error::NoPendingBadgeContractTransfer => "No pending BadgeContract transfer",
            Error::NotProposedBadgeContract => "Unauthorized: Acceptor is not the proposed BadgeContract",
            Error::NoPendingRewardPoolTransfer => "No pending RewardPool transfer",
            Error::NotProposedRewardPool => "Unauthorized: Acceptor is not the proposed RewardPool",
            Error::NoPendingStakeVaultTransfer => "No pending StakeVault transfer",
            Error::NotProposedStakeVault => "Unauthorized: Acceptor is not the proposed StakeVault",
            Error::ContractPaused => "Contract is paused",
            Error::QuestNotFound => "Quest not found",
            Error::QuestNotActive => "Quest is not active",
            Error::OnlyBuildQuests => "Only Build quests accept submissions",
            Error::SubmissionExists => "Submission already exists",
            Error::NotQuestEmployer => "Only the quest employer can review submissions",
            Error::SubmissionNotFound => "Submission not found",
            Error::SubmissionNotPending => "Submission is not pending review",
            Error::QuestAlreadyInactive => "Quest already inactive",
            Error::NotBuildQuest => "Only Build quests can be refunded",
            Error::NotExploreQuest => "Not an Explore quest",
            Error::AmountNotPositive => "Amount must be positive",
            Error::NotAuthorizedSpender => "Caller is not an authorized spender",
            Error::NoStakeFound => "No stake found",
            Error::LockPeriodActive => "Lock period active",
        }
    }
}

} // verus!
