use provision::{
    CreateErrorType, CreateExecutor, DeleteErrorType, DeleteExecutor, FileFailure, FileManager,
    IoFailure, IoKind, ProvisionerImpl, RealCreateExecutor, RealDeleteExecutor, ServiceLayout,
    Step,
};
use std::cell::RefCell;
use std::collections::{BTreeMap, BTreeSet};
use std::rc::Rc;

/// An in-memory directory tree that can be told to refuse writes to some paths.
#[derive(Default)]
struct Disk {
    dirs: BTreeSet<String>,
    files: BTreeMap<String, String>,
    unwritable: BTreeSet<String>,
    log: Vec<String>,
}

#[derive(Clone, Default)]
struct MemoryFiles(Rc<RefCell<Disk>>);

fn failure(kind: IoKind, message: &str) -> IoFailure {
    IoFailure { kind, message: message.to_string() }
}

fn parent(path: &str) -> String {
    match path.rfind('/') {
        Some(i) => path[..i].to_string(),
        None => String::new(),
    }
}

impl FileManager for MemoryFiles {
    fn create_directory(&self, path: &str) -> Result<(), IoFailure> {
        let mut d = self.0.borrow_mut();
        d.log.push(format!("mkdir {path}"));
        if d.dirs.contains(path) || d.files.contains_key(path) {
            return Err(failure(IoKind::AlreadyExists, "File exists"));
        }
        if !d.dirs.contains(&parent(path)) {
            return Err(failure(IoKind::NotFound, "No such file or directory"));
        }
        d.dirs.insert(path.to_string());
        Ok(())
    }

    fn create_file(&self, path: &str, content: &str) -> Result<(), FileFailure> {
        let mut d = self.0.borrow_mut();
        d.log.push(format!("create {path}"));
        if d.dirs.contains(path) || d.files.contains_key(path) {
            return Err(FileFailure::Open(failure(IoKind::AlreadyExists, "File exists")));
        }
        if !d.dirs.contains(&parent(path)) {
            return Err(FileFailure::Open(failure(IoKind::NotFound, "No such file or directory")));
        }
        if d.unwritable.contains(path) {
            return Err(FileFailure::Open(failure(IoKind::PermissionDenied, "Permission denied")));
        }
        d.files.insert(path.to_string(), content.to_string());
        Ok(())
    }

    fn remove_directory(&self, path: &str) -> Result<(), IoFailure> {
        let mut d = self.0.borrow_mut();
        d.log.push(format!("rmdir {path}"));
        if !d.dirs.contains(path) {
            return Err(failure(IoKind::NotFound, "No such file or directory"));
        }
        let prefix = format!("{path}/");
        d.dirs.retain(|p| p != path && !p.starts_with(&prefix));
        d.files.retain(|p, _| !p.starts_with(&prefix));
        Ok(())
    }

    fn remove_file(&self, path: &str) -> Result<(), IoFailure> {
        let mut d = self.0.borrow_mut();
        d.log.push(format!("rm {path}"));
        if d.files.remove(path).is_none() {
            return Err(failure(IoKind::NotFound, "No such file or directory"));
        }
        Ok(())
    }
}

type Provisioner = ProvisionerImpl<RealCreateExecutor<MemoryFiles>, RealDeleteExecutor<MemoryFiles>>;

fn setup() -> (Provisioner, MemoryFiles) {
    let files = MemoryFiles::default();
    files.0.borrow_mut().dirs.insert("/srv".to_string());
    let create = RealCreateExecutor::new(ServiceLayout::new("/srv".to_string()), files.clone());
    let delete = RealDeleteExecutor::new(ServiceLayout::new("/srv".to_string()), files.clone());
    (ProvisionerImpl::new(create, delete), files)
}

fn snapshot(files: &MemoryFiles) -> (BTreeSet<String>, Vec<String>) {
    let d = files.0.borrow();
    (d.dirs.clone(), d.files.keys().cloned().collect())
}

fn removal_steps(v: &[provision::Removal]) -> Vec<Step> {
    v.iter().map(|r| r.step).collect()
}

#[test]
fn create_writes_all_artifacts() {
    let (p, files) = setup();
    assert!(p.create("alpha".to_string()).is_ok());
    let d = files.0.borrow();
    assert!(d.dirs.contains("/srv/alpha"));
    let names: Vec<&String> = d.files.keys().collect();
    assert_eq!(
        names,
        vec!["/srv/alpha/.env", "/srv/alpha/alpha.service", "/srv/alpha/docker-compose.yaml"]
    );
    assert_eq!(
        d.files["/srv/alpha/.env"],
        "POSTGRES_DB=alpha-db\nSERVICE_NAME=alpha-service\nPOSTGRES_PASSWORD=alpha-password\n"
    );
    assert!(d.files["/srv/alpha/alpha.service"].contains("Description=alpha service"));
}

#[test]
fn compose_failure_rolls_back_folder() {
    let (p, files) = setup();
    files.0.borrow_mut().unwritable.insert("/srv/alpha/docker-compose.yaml".to_string());
    let before = snapshot(&files);
    let err = p.create("alpha".to_string()).unwrap_err();
    assert_eq!(err.step, Step::ComposeFile);
    assert_eq!(err.step.name(), "Create Compose File");
    assert_eq!(err.service_name, "alpha");
    assert_eq!(err.cause.kind, CreateErrorType::PermissionError);
    assert_eq!(removal_steps(&err.compensations), vec![Step::Folder]);
    assert!(err.compensations[0].result.is_ok());
    let msg = err.message();
    assert!(msg.contains("Create Compose File"));
    assert!(msg.contains("alpha"));
    assert_eq!(
        msg,
        "Step 'Create Compose File' failed for service 'alpha': Permission Error: Permission denied"
    );
    assert!(!files.0.borrow().dirs.contains("/srv/alpha"));
    assert_eq!(snapshot(&files), before);
}

#[test]
fn second_create_fails_on_folder_without_rollback() {
    let (p, files) = setup();
    assert!(p.create("beta".to_string()).is_ok());
    let after_first = snapshot(&files);
    let log_len = files.0.borrow().log.len();
    let err = p.create("beta".to_string()).unwrap_err();
    assert_eq!(err.step, Step::Folder);
    assert_eq!(err.cause.kind, CreateErrorType::FolderExists);
    assert_eq!(err.cause.message, "/srv/beta already exists");
    assert!(err.compensations.is_empty());
    assert_eq!(snapshot(&files), after_first);
    // only the refused directory creation was attempted
    assert_eq!(files.0.borrow().log.len(), log_len + 1);
}

#[test]
fn unit_failure_undoes_in_reverse_order() {
    let (p, files) = setup();
    files.0.borrow_mut().unwritable.insert("/srv/gamma/gamma.service".to_string());
    let before = snapshot(&files);
    let err = p.create("gamma".to_string()).unwrap_err();
    assert_eq!(err.step, Step::SystemdUnit);
    assert_eq!(
        removal_steps(&err.compensations),
        vec![Step::EnvFile, Step::ComposeFile, Step::Folder]
    );
    assert!(err.compensations.iter().all(|c| c.result.is_ok()));
    let log = files.0.borrow().log.clone();
    assert_eq!(
        log[log.len() - 3..].to_vec(),
        vec![
            "rm /srv/gamma/.env".to_string(),
            "rm /srv/gamma/docker-compose.yaml".to_string(),
            "rmdir /srv/gamma".to_string(),
        ]
    );
    assert_eq!(snapshot(&files), before);
}

#[test]
fn env_failure_leaves_nothing() {
    let (p, files) = setup();
    files.0.borrow_mut().unwritable.insert("/srv/delta/.env".to_string());
    let before = snapshot(&files);
    let err = p.create("delta".to_string()).unwrap_err();
    assert_eq!(err.step, Step::EnvFile);
    assert_eq!(err.cause.kind, CreateErrorType::PermissionError);
    assert_eq!(removal_steps(&err.compensations), vec![Step::ComposeFile, Step::Folder]);
    assert_eq!(snapshot(&files), before);
}

#[test]
fn delete_missing_service_reports_absent_folder() {
    let (p, _files) = setup();
    let removals = p.delete("ghost".to_string()).unwrap_err();
    assert_eq!(
        removal_steps(&removals),
        vec![Step::ComposeFile, Step::EnvFile, Step::SystemdUnit, Step::Folder]
    );
    let folder = removals[3].result.as_ref().unwrap_err();
    assert_eq!(folder.kind, DeleteErrorType::FolderDoesNotExist);
    assert_eq!(folder.message, "/srv/ghost does not exist");
    assert_eq!(
        removals[0].result.as_ref().unwrap_err().kind,
        DeleteErrorType::ComposeFileDoesNotExist
    );
}

#[test]
fn delete_after_create_removes_everything() {
    let (p, files) = setup();
    let before = snapshot(&files);
    assert!(p.create("eps".to_string()).is_ok());
    let removals = p.delete("eps".to_string()).unwrap();
    assert_eq!(
        removal_steps(&removals),
        vec![Step::ComposeFile, Step::EnvFile, Step::SystemdUnit, Step::Folder]
    );
    assert_eq!(snapshot(&files), before);
}

#[test]
fn restart_and_pull_acknowledge() {
    let (p, _files) = setup();
    assert!(p.restart("alpha".to_string()).is_ok());
    assert!(p.pull("alpha".to_string()).is_ok());
}

#[test]
fn executors_report_existing_artifacts() {
    let (p, _files) = setup();
    assert!(p.create_executor.create_folder("x".to_string()).is_ok());
    assert!(p.create_executor.create_compose_file("x".to_string()).is_ok());
    assert_eq!(
        p.create_executor.create_compose_file("x".to_string()).unwrap_err().kind,
        CreateErrorType::ComposeFileExists
    );
    assert!(p.create_executor.create_env_file("x".to_string()).is_ok());
    assert_eq!(
        p.create_executor.create_env_file("x".to_string()).unwrap_err().kind,
        CreateErrorType::EnvFileExists
    );
    assert!(p.create_executor.create_systemd_unit("x".to_string()).is_ok());
    let err = p.create_executor.create_systemd_unit("x".to_string()).unwrap_err();
    assert_eq!(err.kind, CreateErrorType::UnitFileExists);
    assert_eq!(err.message, "/srv/x/x.service already exists");
    assert!(p.delete_executor.delete_systemd_unit("x".to_string()).is_ok());
    assert_eq!(
        p.delete_executor.delete_systemd_unit("x".to_string()).unwrap_err().kind,
        DeleteErrorType::UnitFileDoesNotExist
    );
    assert!(p.delete_executor.delete_folder("x".to_string()).is_ok());
    assert_eq!(
        p.delete_executor.delete_env_file("x".to_string()).unwrap_err().kind,
        DeleteErrorType::EnvFileDoesNotExist
    );
}

#[test]
fn file_in_missing_folder_is_other_io() {
    let (p, _files) = setup();
    let err = p.create_executor.create_compose_file("nope".to_string()).unwrap_err();
    assert_eq!(err.kind, CreateErrorType::OtherIO);
    assert_eq!(err.message, "No such file or directory");
    let err = p.create_executor.create_env_file("nope".to_string()).unwrap_err();
    assert_eq!(err.kind, CreateErrorType::FileCreateFailed);
}
