//! Platform identifiers (`$SystemID` values) and operating systems.

use vstd::prelude::*;

use crate::error::Error;

verus! {

/// Possible values of `$SystemID`.
#[allow(non_camel_case_types)]
#[derive(Debug, Clone, Copy, PartialEq, Eq, Structural, PartialOrd, Ord, Hash)]
pub enum SystemID {
    /// `"MacOSX-x86-64"`
    MacOSX_x86_64,
    /// `"MacOSX-ARM64"`
    MacOSX_ARM64,
    /// `"Windows-x86-64"`
    Windows_x86_64,
    /// `"Linux-x86-64"`
    Linux_x86_64,
    /// `"Linux-ARM64"`
    Linux_ARM64,
    /// `"Linux-ARM"`, e.g. Raspberry Pi
    Linux_ARM,
    /// `"iOS-ARM64"`
    iOS_ARM64,
    /// `"Android"`
    Android,
    /// `"Windows"`: legacy Windows 32-bit x86
    Windows,
    /// `"Linux"`: legacy Linux 32-bit x86
    Linux,
}

/// Operating systems whose installation conventions the library knows.
#[derive(Debug, Clone, Copy, PartialEq, Eq, Structural)]
pub enum OperatingSystem {
    MacOS,
    Windows,
    Linux,
    Other,
}

/// The canonical `$SystemID` text of each platform identifier.
pub open spec fn system_id_text(id: SystemID) -> Seq<char> {
    match id {
        SystemID::MacOSX_x86_64 => "MacOSX-x86-64"@,
        SystemID::MacOSX_ARM64 => "MacOSX-ARM64"@,
        SystemID::Windows_x86_64 => "Windows-x86-64"@,
        SystemID::Linux_x86_64 => "Linux-x86-64"@,
        SystemID::Linux_ARM64 => "Linux-ARM64"@,
        SystemID::Linux_ARM => "Linux-ARM"@,
        SystemID::iOS_ARM64 => "iOS-ARM64"@,
        SystemID::Android => "Android"@,
        SystemID::Windows => "Windows"@,
        SystemID::Linux => "Linux"@,
    }
}

/// The operating system of each platform identifier.
pub open spec fn os_of(id: SystemID) -> OperatingSystem {
    match id {
        SystemID::MacOSX_x86_64 | SystemID::MacOSX_ARM64 => OperatingSystem::MacOS,
        SystemID::Windows_x86_64 | SystemID::Windows => OperatingSystem::Windows,
        SystemID::Linux_x86_64 | SystemID::Linux_ARM64 | SystemID::Linux_ARM
        | SystemID::Linux => OperatingSystem::Linux,
        SystemID::iOS_ARM64 | SystemID::Android => OperatingSystem::Other,
    }
}

/// The platform identifier of a Rust target triple, for the triples that
/// have one.
pub open spec fn system_id_of_target(t: Seq<char>) -> Option<SystemID> {
    if t == "aarch64-unknown-linux-gnu"@ {
        Some(SystemID::Linux_ARM64)
    } else if t == "i686-pc-windows-gnu"@ || t == "i686-pc-windows-msvc"@ {
        Some(SystemID::Windows)
    } else if t == "i686-unknown-linux-gnu"@ {
        Some(SystemID::Linux)
    } else if t == "x86_64-apple-darwin"@ {
        Some(SystemID::MacOSX_x86_64)
    } else if t == "x86_64-pc-windows-gnu"@ || t == "x86_64-pc-windows-msvc"@ {
        Some(SystemID::Windows_x86_64)
    } else if t == "x86_64-unknown-linux-gnu"@ {
        Some(SystemID::Linux_x86_64)
    } else if t == "aarch64-apple-darwin"@ {
        Some(SystemID::MacOSX_ARM64)
    } else if t == "aarch64-apple-ios"@ || t == "aarch64-apple-ios-sim"@ {
        Some(SystemID::iOS_ARM64)
    } else if t == "aarch64-linux-android"@ {
        Some(SystemID::Android)
    } else if t == "armv7-unknown-linux-gnueabihf"@ {
        Some(SystemID::Linux_ARM)
    } else {
        None
    }
}

/// Equality of two strings, character by character.
pub fn str_eq(a: &str, b: &str) -> (r: bool)
    ensures
        r == (a@ == b@),
{
    let n = a.unicode_len();
    if n != b.unicode_len() {
        return false;
    }
    let mut i: usize = 0;
    while i < n
        invariant
            n == a@.len(),
            n == b@.len(),
            i <= n,
            forall|j: int| 0 <= j < i ==> a@[j] == b@[j],
        decreases n - i,
    {
        if a.get_char(i) != b.get_char(i) {
            return false;
        }
        i = i + 1;
    }
    assert(a@ =~= b@);
    true
}

impl SystemID {
    /// The `$SystemID` text of this identifier.
    pub fn as_str(self) -> (r: &'static str)
        ensures
            r@ == system_id_text(self),
    {
        match self {
            SystemID::MacOSX_x86_64 => "MacOSX-x86-64",
            SystemID::MacOSX_ARM64 => "MacOSX-ARM64",
            SystemID::Windows_x86_64 => "Windows-x86-64",
            SystemID::Linux_x86_64 => "Linux-x86-64",
            SystemID::Linux_ARM64 => "Linux-ARM64",
            SystemID::Linux_ARM => "Linux-ARM",
            SystemID::iOS_ARM64 => "iOS-ARM64",
            SystemID::Android => "Android",
            SystemID::Windows => "Windows",
            SystemID::Linux => "Linux",
        }
    }

    /// All identifiers, in declaration order.
    pub fn all() -> (r: Vec<SystemID>)
        ensures
            r@.len() == 10,
            forall|id: SystemID| r@.contains(id),
    {
        let r = vec![
            SystemID::MacOSX_x86_64,
            SystemID::MacOSX_ARM64,
            SystemID::Windows_x86_64,
            SystemID::Linux_x86_64,
            SystemID::Linux_ARM64,
            SystemID::Linux_ARM,
            SystemID::iOS_ARM64,
            SystemID::Android,
            SystemID::Windows,
            SystemID::Linux,
        ];
        assert forall|id: SystemID| r@.contains(id) by {
            match id {
                SystemID::MacOSX_x86_64 => assert(r@[0] == id),
                SystemID::MacOSX_ARM64 => assert(r@[1] == id),
                SystemID::Windows_x86_64 => assert(r@[2] == id),
                SystemID::Linux_x86_64 => assert(r@[3] == id),
                SystemID::Linux_ARM64 => assert(r@[4] == id),
                SystemID::Linux_ARM => assert(r@[5] == id),
                SystemID::iOS_ARM64 => assert(r@[6] == id),
                SystemID::Android => assert(r@[7] == id),
                SystemID::Windows => assert(r@[8] == id),
                SystemID::Linux => assert(r@[9] == id),
            }
        }
        r
    }

    /// The identifier whose `$SystemID` text is `text`, if any.
    pub fn from_text(text: &str) -> (r: Option<SystemID>)
        ensures
            r is Some ==> system_id_text(r->Some_0) == text@,
            r is None ==> forall|id: SystemID| system_id_text(id) != text@,
    {
        let all = SystemID::all();
        let mut i: usize = 0;
        while i < all.len()
            invariant
                i <= all@.len(),
                all@.len() == 10,
                forall|id: SystemID| all@.contains(id),
                forall|j: int| 0 <= j < i ==> system_id_text(all@[j]) != text@,
            decreases all@.len() - i,
        {
            let id = all[i];
            if str_eq(id.as_str(), text) {
                return Some(id);
            }
            i = i + 1;
        }
        assert forall|id: SystemID| system_id_text(id) != text@ by {
            assert(all@.contains(id));
            let j = choose|j: int| 0 <= j < all@.len() && all@[j] == id;
            assert(system_id_text(all@[j]) != text@);
        }
        None
    }

    /// The identifier of a Rust target triple.
    pub fn try_from_rust_target(rust_target: &str) -> (r: Result<SystemID, Error>)
        ensures
            system_id_of_target(rust_target@) is Some <==> r is Ok,
            r is Ok ==> r->Ok_0 == system_id_of_target(rust_target@)->Some_0,
            r is Err ==> r->Err_0.kind is Other,
    {
        let t = rust_target;
        let id = if str_eq(t, "aarch64-unknown-linux-gnu") {
            SystemID::Linux_ARM64
        } else if str_eq(t, "i686-pc-windows-gnu") || str_eq(t, "i686-pc-windows-msvc") {
            SystemID::Windows
        } else if str_eq(t, "i686-unknown-linux-gnu") {
            SystemID::Linux
        } else if str_eq(t, "x86_64-apple-darwin") {
            SystemID::MacOSX_x86_64
        } else if str_eq(t, "x86_64-pc-windows-gnu") || str_eq(t, "x86_64-pc-windows-msvc") {
            SystemID::Windows_x86_64
        } else if str_eq(t, "x86_64-unknown-linux-gnu") {
            SystemID::Linux_x86_64
        } else if str_eq(t, "aarch64-apple-darwin") {
            SystemID::MacOSX_ARM64
        } else if str_eq(t, "aarch64-apple-ios") || str_eq(t, "aarch64-apple-ios-sim") {
            SystemID::iOS_ARM64
        } else if str_eq(t, "aarch64-linux-android") {
            SystemID::Android
        } else if str_eq(t, "armv7-unknown-linux-gnueabihf") {
            SystemID::Linux_ARM
        } else {
            let mut message = String::from_str(
                "no known Wolfram System ID value associated with Rust target triple: ",
            );
            message.append(rust_target);
            return Err(Error::other(message));
        };
        Ok(id)
    }

    /// The operating system this identifier belongs to.
    pub fn operating_system(&self) -> (r: OperatingSystem)
        ensures
            r == os_of(*self),
    {
        match self {
            SystemID::MacOSX_x86_64 | SystemID::MacOSX_ARM64 => OperatingSystem::MacOS,
            SystemID::Windows_x86_64 | SystemID::Windows => OperatingSystem::Windows,
            SystemID::Linux_x86_64 | SystemID::Linux_ARM64 | SystemID::Linux_ARM
            | SystemID::Linux => OperatingSystem::Linux,
            SystemID::iOS_ARM64 | SystemID::Android => OperatingSystem::Other,
        }
    }
}

/// The `$SystemID` text of a Rust target triple.
pub fn system_id_from_target(rust_target: &str) -> (r: Result<&'static str, Error>)
    ensures
        system_id_of_target(rust_target@) is Some <==> r is Ok,
        r is Ok ==> r->Ok_0@ == system_id_text(system_id_of_target(rust_target@)->Some_0),
        r is Err ==> r->Err_0.kind is Other,
{
    let id = SystemID::try_from_rust_target(rust_target)?;
    Ok(id.as_str())
}

/// The name of each operating system, as it reads in messages.
pub open spec fn os_name(os: OperatingSystem) -> Seq<char> {
    match os {
        OperatingSystem::MacOS => "MacOS"@,
        OperatingSystem::Windows => "Windows"@,
        OperatingSystem::Linux => "Linux"@,
        OperatingSystem::Other => "Other"@,
    }
}

impl OperatingSystem {
    /// The name of this operating system, as it reads in messages.
    pub fn name(&self) -> (r: &'static str)
        ensures
            r@ == os_name(*self),
    {
        match self {
            OperatingSystem::MacOS => "MacOS",
            OperatingSystem::Windows => "Windows",
            OperatingSystem::Linux => "Linux",
            OperatingSystem::Other => "Other",
        }
    }
}

} // verus!
