use vstd::prelude::*;

verus! {

/// Why a creation step failed.
#[derive(Clone, Copy, Debug, PartialEq, Eq, Structural)]
pub enum CreateErrorType {
    FolderExists,
    ComposeFileExists,
    EnvFileExists,
    UnitFileExists,
    FolderCreateFailed,
    FileCreateFailed,
    FileWriteFailed,
    PermissionError,
    OtherIO,
}

/// Why a deletion step failed.
#[derive(Clone, Copy, Debug, PartialEq, Eq, Structural)]
pub enum DeleteErrorType {
    FolderDoesNotExist,
    ComposeFileDoesNotExist,
    EnvFileDoesNotExist,
    UnitFileDoesNotExist,
    FolderDeletionFailed,
    ComposeFileDeletionFailed,
    EnvFileDeletionFailed,
    UnitFileDeletionFailed,
}

pub open spec fn create_kind_text(k: CreateErrorType) -> Seq<char> {
    match k {
        CreateErrorType::FolderExists => "Folder already exists"@,
        CreateErrorType::ComposeFileExists => "Compose file already exists"@,
        CreateErrorType::EnvFileExists => "Env file already exists"@,
        CreateErrorType::UnitFileExists => "Unit file already exists"@,
        CreateErrorType::FolderCreateFailed => "Folder creation failed"@,
        CreateErrorType::FileCreateFailed => "File creation failed"@,
        CreateErrorType::FileWriteFailed => "File write failed"@,
        CreateErrorType::PermissionError => "Permission Error"@,
        CreateErrorType::OtherIO => "IO operation failed"@,
    }
}

pub open spec fn delete_kind_text(k: DeleteErrorType) -> Seq<char> {
    match k {
        DeleteErrorType::FolderDoesNotExist => "Folder does not exist"@,
        DeleteErrorType::ComposeFileDoesNotExist => "Compose file does not exist"@,
        DeleteErrorType::EnvFileDoesNotExist => "Environment file does not exist"@,
        DeleteErrorType::UnitFileDoesNotExist => "Unit file does not exist"@,
        DeleteErrorType::FolderDeletionFailed => "Folder deletion failed"@,
        DeleteErrorType::ComposeFileDeletionFailed => "Compose file deletion failed"@,
        DeleteErrorType::EnvFileDeletionFailed => "Environment file deletion failed"@,
        DeleteErrorType::UnitFileDeletionFailed => "Unit file deletion failed"@,
    }
}

impl CreateErrorType {
    /// Human-readable description of the failure kind.
    pub fn describe(&self) -> (r: String)
        ensures
            r@ == create_kind_text(*self),
    {
        match self {
            CreateErrorType::FolderExists => String::from_str("Folder already exists"),
            CreateErrorType::ComposeFileExists => String::from_str("Compose file already exists"),
            CreateErrorType::EnvFileExists => String::from_str("Env file already exists"),
            CreateErrorType::UnitFileExists => String::from_str("Unit file already exists"),
            CreateErrorType::FolderCreateFailed => String::from_str("Folder creation failed"),
            CreateErrorType::FileCreateFailed => String::from_str("File creation failed"),
            CreateErrorType::FileWriteFailed => String::from_str("File write failed"),
            CreateErrorType::PermissionError => String::from_str("Permission Error"),
            CreateErrorType::OtherIO => String::from_str("IO operation failed"),
        }
    }
}

impl DeleteErrorType {
    /// Human-readable description of the failure kind.
    pub fn describe(&self) -> (r: String)
        ensures
            r@ == delete_kind_text(*self),
    {
        match self {
            DeleteErrorType::FolderDoesNotExist => String::from_str("Folder does not exist"),
            DeleteErrorType::ComposeFileDoesNotExist => String::from_str(
                "Compose file does not exist",
            ),
            DeleteErrorType::EnvFileDoesNotExist => String::from_str(
                "Environment file does not exist",
            ),
            DeleteErrorType::UnitFileDoesNotExist => String::from_str("Unit file does not exist"),
            DeleteErrorType::FolderDeletionFailed => String::from_str("Folder deletion failed"),
            DeleteErrorType::ComposeFileDeletionFailed => String::from_str(
                "Compose file deletion failed",
            ),
            DeleteErrorType::EnvFileDeletionFailed => String::from_str(
                "Environment file deletion failed",
            ),
            DeleteErrorType::UnitFileDeletionFailed => String::from_str(
                "Unit file deletion failed",
            ),
        }
    }
}

/// A classified executor failure: its kind and a message with the details.
#[derive(Debug)]
pub struct ExecutorError<T> {
    pub kind: T,
    pub message: String,
}

pub type CreateExecutorError = ExecutorError<CreateErrorType>;

pub type DeleteExecutorError = ExecutorError<DeleteErrorType>;

impl<T> ExecutorError<T> {
    pub fn new(kind: T, message: String) -> (r: Self)
        ensures
            r.kind == kind,
            r.message@ == message@,
    {
        ExecutorError { kind, message }
    }
}

/// "<kind>: <message>", the way a failure is shown to a person.
pub open spec fn error_text(kind_text: Seq<char>, message: Seq<char>) -> Seq<char> {
    kind_text + ": "@ + message
}

impl ExecutorError<CreateErrorType> {
    pub fn describe(&self) -> (r: String)
        ensures
            r@ == error_text(create_kind_text(self.kind), self.message@),
    {
        let mut s = self.kind.describe();
        s.append(": ");
        s.append(self.message.as_str());
        s
    }
}

impl ExecutorError<DeleteErrorType> {
    pub fn describe(&self) -> (r: String)
        ensures
            r@ == error_text(delete_kind_text(self.kind), self.message@),
    {
        let mut s = self.kind.describe();
        s.append(": ");
        s.append(self.message.as_str());
        s
    }
}

} // verus!
