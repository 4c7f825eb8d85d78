use vstd::prelude::*;

verus! {

/// `<dir>/<leaf>`.
pub open spec fn join_path(dir: Seq<char>, leaf: Seq<char>) -> Seq<char> {
    dir + "/"@ + leaf
}

/// `<root>/<name>`: the directory that holds a service.
pub open spec fn folder_path(root: Seq<char>, name: Seq<char>) -> Seq<char> {
    join_path(root, name)
}

/// `<root>/<name>/docker-compose.yaml`.
pub open spec fn compose_path(root: Seq<char>, name: Seq<char>) -> Seq<char> {
    join_path(folder_path(root, name), "docker-compose.yaml"@)
}

/// `<root>/<name>/.env`.
pub open spec fn env_path(root: Seq<char>, name: Seq<char>) -> Seq<char> {
    join_path(folder_path(root, name), ".env"@)
}

/// `<root>/<name>/<name>.service`.
pub open spec fn unit_path(root: Seq<char>, name: Seq<char>) -> Seq<char> {
    join_path(folder_path(root, name), name + ".service"@)
}

/// The compose file: the same for every service.
pub open spec fn compose_content() -> Seq<char> {
    "services:\n  app:\n    image: postgres:latest\n    env_file: .env\n    restart: unless-stopped\n"@
}

/// The environment file, filled in with `<name>-db`, `<name>-service` and
/// `<name>-password`.
pub open spec fn env_content(name: Seq<char>) -> Seq<char> {
    "POSTGRES_DB="@ + name + "-db\nSERVICE_NAME="@ + name + "-service\nPOSTGRES_PASSWORD="@
        + name + "-password\n"@
}

/// The systemd unit, naming the service in its description and identifier.
pub open spec fn unit_content(name: Seq<char>) -> Seq<char> {
    "[Unit]\nDescription="@ + name
        + " service\n\n[Service]\nSyslogIdentifier="@ + name
        + "\nExecStart=/usr/bin/docker compose up\nExecStop=/usr/bin/docker compose down\n\n[Install]\nWantedBy=multi-user.target\n"@
}

/// Where the services live: every path is derived from the root directory.
pub struct ServiceLayout {
    pub root: String,
}

impl ServiceLayout {
    pub fn new(root: String) -> (r: ServiceLayout)
        ensures
            r.root@ == root@,
    {
        ServiceLayout { root }
    }

    pub fn folder(&self, name: &str) -> (r: String)
        ensures
            r@ == folder_path(self.root@, name@),
    {
        let mut p = self.root.clone();
        p.append("/");
        p.append(name);
        p
    }

    pub fn compose_file(&self, name: &str) -> (r: String)
        ensures
            r@ == compose_path(self.root@, name@),
    {
        let mut p = self.folder(name);
        p.append("/");
        p.append("docker-compose.yaml");
        p
    }

    pub fn env_file(&self, name: &str) -> (r: String)
        ensures
            r@ == env_path(self.root@, name@),
    {
        let mut p = self.folder(name);
        p.append("/");
        p.append(".env");
        p
    }

    pub fn unit_file(&self, name: &str) -> (r: String)
        ensures
            r@ == unit_path(self.root@, name@),
    {
        let mut p = self.folder(name);
        p.append("/");
        p.append(name);
        p.append(".service");
        p
    }
}

pub fn compose_file_content() -> (r: String)
    ensures
        r@ == compose_content(),
{
    String::from_str(
        "services:\n  app:\n    image: postgres:latest\n    env_file: .env\n    restart: unless-stopped\n",
    )
}

pub fn env_file_content(name: &str) -> (r: String)
    ensures
        r@ == env_content(name@),
{
    let mut s = String::from_str("POSTGRES_DB=");
    s.append(name);
    s.append("-db\nSERVICE_NAME=");
    s.append(name);
    s.append("-service\nPOSTGRES_PASSWORD=");
    s.append(name);
    s.append("-password\n");
    s
}

pub fn unit_file_content(name: &str) -> (r: String)
    ensures
        r@ == unit_content(name@),
{
    let mut s = String::from_str("[Unit]\nDescription=");
    s.append(name);
    s.append(" service\n\n[Service]\nSyslogIdentifier=");
    s.append(name);
    s.append(
        "\nExecStart=/usr/bin/docker compose up\nExecStop=/usr/bin/docker compose down\n\n[Install]\nWantedBy=multi-user.target\n",
    );
    s
}

} // verus!
