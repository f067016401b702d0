use vstd::prelude::*;

verus! {

/// Where the server, its world and its backups live, and the name of the
/// session that hosts recurring backups.
#[derive(Debug)]
pub struct ServerConfig {
    /// The directory of the world that a backup archives.
    pub world_dir: String,
    /// The directory that receives the backup archives.
    pub backup_dir: String,
    /// The one session that may host recurring backups.
    pub session_name: String,
    /// The script that starts the server.
    pub start_script: String,
    /// The script that stops the server.
    pub stop_script: String,
    /// The script that repeats backups at an interval.
    pub schedule_script: String,
}

pub struct ConfigView {
    pub world_dir: Seq<char>,
    pub backup_dir: Seq<char>,
    pub session_name: Seq<char>,
    pub start_script: Seq<char>,
    pub stop_script: Seq<char>,
    pub schedule_script: Seq<char>,
}

impl View for ServerConfig {
    type V = ConfigView;

    open spec fn view(&self) -> ConfigView {
        ConfigView {
            world_dir: self.world_dir@,
            backup_dir: self.backup_dir@,
            session_name: self.session_name@,
            start_script: self.start_script@,
            stop_script: self.stop_script@,
            schedule_script: self.schedule_script@,
        }
    }
}

impl ServerConfig {
    /// The layout of a server installed under `/home/mcadmin/minecraft_server`.
    pub fn standard() -> (r: ServerConfig)
        ensures
            r@ == (ConfigView {
                world_dir: "/home/mcadmin/minecraft_server/world"@,
                backup_dir: "/home/mcadmin/minecraft_server/backups"@,
                session_name: "backup_server_mgr"@,
                start_script: "/home/mcadmin/minecraft_server/start_minecraft_server.sh"@,
                stop_script: "/home/mcadmin/minecraft_server/stop_minecraft_server.sh"@,
                schedule_script: "/home/mcadmin/minecraft_server/start_scheduled_backups.sh"@,
            }),
    {
        ServerConfig {
            world_dir: String::from_str("/home/mcadmin/minecraft_server/world"),
            backup_dir: String::from_str("/home/mcadmin/minecraft_server/backups"),
            session_name: String::from_str("backup_server_mgr"),
            start_script: String::from_str("/home/mcadmin/minecraft_server/start_minecraft_server.sh"),
            stop_script: String::from_str("/home/mcadmin/minecraft_server/stop_minecraft_server.sh"),
            schedule_script: String::from_str(
                "/home/mcadmin/minecraft_server/start_scheduled_backups.sh",
            ),
        }
    }
}

} // verus!
