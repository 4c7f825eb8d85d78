use vstd::prelude::*;
use crate::errors::{
    CreateErrorType, CreateExecutorError, DeleteErrorType, DeleteExecutorError, ExecutorError,
};
use crate::fs::{FileFailure, FileManager, IoFailure, IoKind};
use crate::layout::{
    compose_file_content, compose_path, env_file_content, env_path, folder_path, unit_file_content,
    unit_path, ServiceLayout,
};
use crate::steps::Step;

verus! {

/// The four forward steps of service creation. A step that fails reports
/// one of its own kinds, and an artifact that already exists is named by its
/// path under `root`.
pub trait CreateExecutor {
    /// The directory under which the services live.
    spec fn root(&self) -> Seq<char>;

    fn create_folder(&self, service_name: String) -> (r: Result<(), CreateExecutorError>)
        ensures
            r is Err ==> create_kind_for(Step::Folder, r->Err_0.kind),
            r is Err && r->Err_0.kind == exists_kind(Step::Folder) ==> r->Err_0.message@
                == exists_message(step_path(self.root(), Step::Folder, service_name@)),
    ;

    fn create_compose_file(&self, service_name: String) -> (r: Result<(), CreateExecutorError>)
        ensures
            r is Err ==> create_kind_for(Step::ComposeFile, r->Err_0.kind),
            r is Err && r->Err_0.kind == exists_kind(Step::ComposeFile) ==> r->Err_0.message@
                == exists_message(step_path(self.root(), Step::ComposeFile, service_name@)),
    ;

    fn create_env_file(&self, service_name: String) -> (r: Result<(), CreateExecutorError>)
        ensures
            r is Err ==> create_kind_for(Step::EnvFile, r->Err_0.kind),
            r is Err && r->Err_0.kind == exists_kind(Step::EnvFile) ==> r->Err_0.message@
                == exists_message(step_path(self.root(), Step::EnvFile, service_name@)),
    ;

    fn create_systemd_unit(&self, service_name: String) -> (r: Result<(), CreateExecutorError>)
        ensures
            r is Err ==> create_kind_for(Step::SystemdUnit, r->Err_0.kind),
            r is Err && r->Err_0.kind == exists_kind(Step::SystemdUnit) ==> r->Err_0.message@
                == exists_message(step_path(self.root(), Step::SystemdUnit, service_name@)),
    ;
}

/// The four inverse steps, used for deletion and for rollback. A removal
/// that fails reports one of its artifact's two kinds, with a message that
/// names the artifact's path under `root`.
pub trait DeleteExecutor {
    /// The directory under which the services live.
    spec fn root(&self) -> Seq<char>;

    fn delete_folder(&self, service_name: String) -> (r: Result<(), DeleteExecutorError>)
        ensures
            r is Err ==> removal_error_shape(
                Step::Folder,
                step_path(self.root(), Step::Folder, service_name@),
                r->Err_0.kind,
                r->Err_0.message@,
            ),
    ;

    fn delete_compose_file(&self, service_name: String) -> (r: Result<(), DeleteExecutorError>)
        ensures
            r is Err ==> removal_error_shape(
                Step::ComposeFile,
                step_path(self.root(), Step::ComposeFile, service_name@),
                r->Err_0.kind,
                r->Err_0.message@,
            ),
    ;

    fn delete_env_file(&self, service_name: String) -> (r: Result<(), DeleteExecutorError>)
        ensures
            r is Err ==> removal_error_shape(
                Step::EnvFile,
                step_path(self.root(), Step::EnvFile, service_name@),
                r->Err_0.kind,
                r->Err_0.message@,
            ),
    ;

    fn delete_systemd_unit(&self, service_name: String) -> (r: Result<(), DeleteExecutorError>)
        ensures
            r is Err ==> removal_error_shape(
                Step::SystemdUnit,
                step_path(self.root(), Step::SystemdUnit, service_name@),
                r->Err_0.kind,
                r->Err_0.message@,
            ),
    ;
}

/// The path of the artifact that `step` creates for service `name`.
pub open spec fn step_path(root: Seq<char>, step: Step, name: Seq<char>) -> Seq<char> {
    match step {
        Step::Folder => folder_path(root, name),
        Step::ComposeFile => compose_path(root, name),
        Step::EnvFile => env_path(root, name),
        Step::SystemdUnit => unit_path(root, name),
    }
}

/// The kinds with which `step` may fail.
pub open spec fn create_kind_for(step: Step, k: CreateErrorType) -> bool {
    match step {
        Step::Folder => k == CreateErrorType::FolderExists || k == CreateErrorType::FolderCreateFailed,
        Step::ComposeFile => k == CreateErrorType::ComposeFileExists || k
            == CreateErrorType::PermissionError || k == CreateErrorType::OtherIO,
        Step::EnvFile => k == CreateErrorType::EnvFileExists || k == CreateErrorType::PermissionError
            || k == CreateErrorType::FileCreateFailed || k == CreateErrorType::FileWriteFailed,
        Step::SystemdUnit => k == CreateErrorType::UnitFileExists || k
            == CreateErrorType::PermissionError || k == CreateErrorType::OtherIO,
    }
}

/// The kinds with which removing the artifact of `step` may fail.
pub open spec fn delete_kind_for(step: Step, k: DeleteErrorType) -> bool {
    k == missing_kind(step) || k == removal_failed_kind(step)
}

/// A failed removal of the artifact of `step` at `path`: one of its two
/// kinds, "<path> does not exist" when it was absent, and otherwise a message
/// that starts with the path and goes on with the system's own words.
pub open spec fn removal_error_shape(
    step: Step,
    path: Seq<char>,
    k: DeleteErrorType,
    message: Seq<char>,
) -> bool {
    &&& delete_kind_for(step, k)
    &&& k == missing_kind(step) ==> message == missing_message(path)
    &&& k == removal_failed_kind(step) ==> exists|sys: Seq<char>|
        message == #[trigger] failed_removal_message(path, sys)
}

pub open spec fn exists_kind(step: Step) -> CreateErrorType {
    match step {
        Step::Folder => CreateErrorType::FolderExists,
        Step::ComposeFile => CreateErrorType::ComposeFileExists,
        Step::EnvFile => CreateErrorType::EnvFileExists,
        Step::SystemdUnit => CreateErrorType::UnitFileExists,
    }
}

/// Kind reported when a file cannot be created for a reason other than its
/// existence or permissions.
pub open spec fn open_failed_kind(step: Step) -> CreateErrorType {
    match step {
        Step::EnvFile => CreateErrorType::FileCreateFailed,
        _ => CreateErrorType::OtherIO,
    }
}

/// Kind reported when a file's content cannot be written for a reason other
/// than permissions.
pub open spec fn write_failed_kind(step: Step) -> CreateErrorType {
    match step {
        Step::EnvFile => CreateErrorType::FileWriteFailed,
        _ => CreateErrorType::OtherIO,
    }
}

pub open spec fn folder_failure_kind(k: IoKind) -> CreateErrorType {
    if k == IoKind::AlreadyExists {
        CreateErrorType::FolderExists
    } else {
        CreateErrorType::FolderCreateFailed
    }
}

pub open spec fn file_failure_kind(step: Step, f: FileFailure) -> CreateErrorType {
    match f {
        FileFailure::Open(e) => if e.kind == IoKind::AlreadyExists {
            exists_kind(step)
        } else if e.kind == IoKind::PermissionDenied {
            CreateErrorType::PermissionError
        } else {
            open_failed_kind(step)
        },
        FileFailure::Write(e) => if e.kind == IoKind::PermissionDenied {
            CreateErrorType::PermissionError
        } else {
            write_failed_kind(step)
        },
    }
}

pub open spec fn exists_message(path: Seq<char>) -> Seq<char> {
    path + " already exists"@
}

pub open spec fn missing_message(path: Seq<char>) -> Seq<char> {
    path + " does not exist"@
}

/// The message of a failed file creation: the path when it already exists,
/// otherwise the system's own message.
pub open spec fn file_failure_message(path: Seq<char>, f: FileFailure) -> Seq<char> {
    match f {
        FileFailure::Open(e) => if e.kind == IoKind::AlreadyExists {
            exists_message(path)
        } else {
            e.message@
        },
        FileFailure::Write(e) => e.message@,
    }
}

pub open spec fn missing_kind(step: Step) -> DeleteErrorType {
    match step {
        Step::Folder => DeleteErrorType::FolderDoesNotExist,
        Step::ComposeFile => DeleteErrorType::ComposeFileDoesNotExist,
        Step::EnvFile => DeleteErrorType::EnvFileDoesNotExist,
        Step::SystemdUnit => DeleteErrorType::UnitFileDoesNotExist,
    }
}

pub open spec fn removal_failed_kind(step: Step) -> DeleteErrorType {
    match step {
        Step::Folder => DeleteErrorType::FolderDeletionFailed,
        Step::ComposeFile => DeleteErrorType::ComposeFileDeletionFailed,
        Step::EnvFile => DeleteErrorType::EnvFileDeletionFailed,
        Step::SystemdUnit => DeleteErrorType::UnitFileDeletionFailed,
    }
}

pub open spec fn removal_failure_kind(step: Step, k: IoKind) -> DeleteErrorType {
    if k == IoKind::NotFound {
        missing_kind(step)
    } else {
        removal_failed_kind(step)
    }
}

/// "Failed to delete <path> with error: <system message>".
pub open spec fn failed_removal_message(path: Seq<char>, sys: Seq<char>) -> Seq<char> {
    "Failed to delete "@ + path + " with error: "@ + sys
}

pub open spec fn removal_failure_message(path: Seq<char>, e: IoFailure) -> Seq<char> {
    if e.kind == IoKind::NotFound {
        missing_message(path)
    } else {
        failed_removal_message(path, e.message@)
    }
}

fn with_suffix(path: &str, suffix: &str) -> (r: String)
    ensures
        r@ == path@ + suffix@,
{
    let mut s = String::from_str(path);
    s.append(suffix);
    s
}

/// Classifies the result of creating the service directory at `path`.
pub fn folder_outcome(path: &str, res: Result<(), IoFailure>) -> (r: Result<
    (),
    CreateExecutorError,
>)
    ensures
        r is Ok <==> res is Ok,
        res is Err ==> r->Err_0.kind == folder_failure_kind(res->Err_0.kind),
        res is Err ==> r->Err_0.message@ == (if res->Err_0.kind == IoKind::AlreadyExists {
            exists_message(path@)
        } else {
            res->Err_0.message@
        }),
{
    match res {
        Ok(()) => Ok(()),
        Err(e) => {
            if e.kind == IoKind::AlreadyExists {
                Err(ExecutorError::new(CreateErrorType::FolderExists, with_suffix(path, " already exists")))
            } else {
                Err(ExecutorError::new(CreateErrorType::FolderCreateFailed, e.message))
            }
        },
    }
}

fn exists_kind_of(step: Step) -> (r: CreateErrorType)
    ensures
        r == exists_kind(step),
{
    match step {
        Step::Folder => CreateErrorType::FolderExists,
        Step::ComposeFile => CreateErrorType::ComposeFileExists,
        Step::EnvFile => CreateErrorType::EnvFileExists,
        Step::SystemdUnit => CreateErrorType::UnitFileExists,
    }
}

/// Classifies the result of creating the file of `step` at `path`.
pub fn file_outcome(step: Step, path: &str, res: Result<(), FileFailure>) -> (r: Result<
    (),
    CreateExecutorError,
>)
    ensures
        r is Ok <==> res is Ok,
        res is Err ==> r->Err_0.kind == file_failure_kind(step, res->Err_0),
        res is Err ==> r->Err_0.message@ == file_failure_message(path@, res->Err_0),
{
    match res {
        Ok(()) => Ok(()),
        Err(FileFailure::Open(e)) => {
            if e.kind == IoKind::AlreadyExists {
                Err(ExecutorError::new(exists_kind_of(step), with_suffix(path, " already exists")))
            } else if e.kind == IoKind::PermissionDenied {
                Err(ExecutorError::new(CreateErrorType::PermissionError, e.message))
            } else {
                let kind = match step {
                    Step::EnvFile => CreateErrorType::FileCreateFailed,
                    _ => CreateErrorType::OtherIO,
                };
                Err(ExecutorError::new(kind, e.message))
            }
        },
        Err(FileFailure::Write(e)) => {
            if e.kind == IoKind::PermissionDenied {
                Err(ExecutorError::new(CreateErrorType::PermissionError, e.message))
            } else {
                let kind = match step {
                    Step::EnvFile => CreateErrorType::FileWriteFailed,
                    _ => CreateErrorType::OtherIO,
                };
                Err(ExecutorError::new(kind, e.message))
            }
        },
    }
}

/// Classifies the result of removing the artifact of `step` at `path`.
pub fn removal_outcome(step: Step, path: &str, res: Result<(), IoFailure>) -> (r: Result<
    (),
    DeleteExecutorError,
>)
    ensures
        r is Ok <==> res is Ok,
        res is Err ==> r->Err_0.kind == removal_failure_kind(step, res->Err_0.kind),
        res is Err ==> r->Err_0.message@ == removal_failure_message(path@, res->Err_0),
{
    match res {
        Ok(()) => Ok(()),
        Err(e) => {
            if e.kind == IoKind::NotFound {
                let kind = match step {
                    Step::Folder => DeleteErrorType::FolderDoesNotExist,
                    Step::ComposeFile => DeleteErrorType::ComposeFileDoesNotExist,
                    Step::EnvFile => DeleteErrorType::EnvFileDoesNotExist,
                    Step::SystemdUnit => DeleteErrorType::UnitFileDoesNotExist,
                };
                Err(ExecutorError::new(kind, with_suffix(path, " does not exist")))
            } else {
                let kind = match step {
                    Step::Folder => DeleteErrorType::FolderDeletionFailed,
                    Step::ComposeFile => DeleteErrorType::ComposeFileDeletionFailed,
                    Step::EnvFile => DeleteErrorType::EnvFileDeletionFailed,
                    Step::SystemdUnit => DeleteErrorType::UnitFileDeletionFailed,
                };
                let mut message = String::from_str("Failed to delete ");
                message.append(path);
                message.append(" with error: ");
                message.append(e.message.as_str());
                Err(ExecutorError::new(kind, message))
            }
        },
    }
}

/// Creates service artifacts under a root directory through a file manager.
pub struct RealCreateExecutor<F> {
    pub layout: ServiceLayout,
    pub files: F,
}

impl<F: FileManager> RealCreateExecutor<F> {
    pub fn new(layout: ServiceLayout, files: F) -> (r: Self)
        ensures
            r.layout.root@ == layout.root@,
            r.files == files,
    {
        RealCreateExecutor { layout, files }
    }
}

impl<F: FileManager> CreateExecutor for RealCreateExecutor<F> {
    open spec fn root(&self) -> Seq<char> {
        self.layout.root@
    }

    fn create_folder(&self, service_name: String) -> Result<(), CreateExecutorError> {
        let path = self.layout.folder(service_name.as_str());
        let res = self.files.create_directory(path.as_str());
        folder_outcome(path.as_str(), res)
    }

    fn create_compose_file(&self, service_name: String) -> Result<(), CreateExecutorError> {
        let path = self.layout.compose_file(service_name.as_str());
        let content = compose_file_content();
        let res = self.files.create_file(path.as_str(), content.as_str());
        file_outcome(Step::ComposeFile, path.as_str(), res)
    }

    fn create_env_file(&self, service_name: String) -> Result<(), CreateExecutorError> {
        let path = self.layout.env_file(service_name.as_str());
        let content = env_file_content(service_name.as_str());
        let res = self.files.create_file(path.as_str(), content.as_str());
        file_outcome(Step::EnvFile, path.as_str(), res)
    }

    fn create_systemd_unit(&self, service_name: String) -> Result<(), CreateExecutorError> {
        let path = self.layout.unit_file(service_name.as_str());
        let content = unit_file_content(service_name.as_str());
        let res = self.files.create_file(path.as_str(), content.as_str());
        file_outcome(Step::SystemdUnit, path.as_str(), res)
    }
}

/// Removes service artifacts under a root directory through a file manager.
pub struct RealDeleteExecutor<F> {
    pub layout: ServiceLayout,
    pub files: F,
}

impl<F: FileManager> RealDeleteExecutor<F> {
    pub fn new(layout: ServiceLayout, files: F) -> (r: Self)
        ensures
            r.layout.root@ == layout.root@,
            r.files == files,
    {
        RealDeleteExecutor { layout, files }
    }
}

impl<F: FileManager> DeleteExecutor for RealDeleteExecutor<F> {
    open spec fn root(&self) -> Seq<char> {
        self.layout.root@
    }

    fn delete_folder(&self, service_name: String) -> Result<(), DeleteExecutorError> {
        let path = self.layout.folder(service_name.as_str());
        let res = self.files.remove_directory(path.as_str());
        removal_outcome(Step::Folder, path.as_str(), res)
    }

    fn delete_compose_file(&self, service_name: String) -> Result<(), DeleteExecutorError> {
        let path = self.layout.compose_file(service_name.as_str());
        let res = self.files.remove_file(path.as_str());
        removal_outcome(Step::ComposeFile, path.as_str(), res)
    }

    fn delete_env_file(&self, service_name: String) -> Result<(), DeleteExecutorError> {
        let path = self.layout.env_file(service_name.as_str());
        let res = self.files.remove_file(path.as_str());
        removal_outcome(Step::EnvFile, path.as_str(), res)
    }

    fn delete_systemd_unit(&self, service_name: String) -> Result<(), DeleteExecutorError> {
        let path = self.layout.unit_file(service_name.as_str());
        let res = self.files.remove_file(path.as_str());
        removal_outcome(Step::SystemdUnit, path.as_str(), res)
    }
}

} // verus!
