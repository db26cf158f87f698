use vstd::prelude::*;

verus! {

/// Direction of tempo and transport synchronization.
#[derive(Clone, Copy, Debug, PartialEq, Eq, Structural)]
pub enum SyncMode {
    /// Pro DJ Link is master, Link follows (CDJ to Link).
    Master,
    /// Link is master, Pro DJ Link follows (Link to CDJ).
    Slave,
    /// Both directions; the last change wins.
    Bidirectional,
}

/// The lowercase name of a mode, as written in the configuration file and on the command line.
pub open spec fn mode_name(mode: SyncMode) -> Seq<char> {
    match mode {
        SyncMode::Master => seq!['m', 'a', 's', 't', 'e', 'r'],
        SyncMode::Slave => seq!['s', 'l', 'a', 'v', 'e'],
        SyncMode::Bidirectional => seq![
            'b', 'i', 'd', 'i', 'r', 'e', 'c', 't', 'i', 'o', 'n', 'a', 'l'
        ],
    }
}

/// Whether a mode relays from the CDJs to Link.
pub open spec fn relays_to_link(mode: SyncMode) -> bool {
    mode != SyncMode::Slave
}

/// Whether a mode relays from Link to the CDJs.
pub open spec fn relays_to_cdjs(mode: SyncMode) -> bool {
    mode != SyncMode::Master
}

impl Default for SyncMode {
    fn default() -> (mode: SyncMode)
        ensures
            mode == SyncMode::Master,
    {
        SyncMode::Master
    }
}

impl SyncMode {
    /// Whether the mode follows the CDJs: `Master` and `Bidirectional` push CDJ tempo,
    /// phase and transport into Link.
    pub fn follows_cdjs(&self) -> (follows: bool)
        ensures
            follows == relays_to_link(*self),
    {
        match self {
            SyncMode::Slave => false,
            _ => true,
        }
    }

    /// Whether the mode drives the CDJs: `Slave` and `Bidirectional` claim the tempo master
    /// role on the DJ Link network and relay Link's tempo to the CDJs.
    pub fn drives_cdjs(&self) -> (drives: bool)
        ensures
            drives == relays_to_cdjs(*self),
    {
        match self {
            SyncMode::Master => false,
            _ => true,
        }
    }

    /// The lowercase name of the mode.
    pub fn to_string(&self) -> (name: String)
        ensures
            name@ == mode_name(*self),
    {
        match self {
            SyncMode::Master => {
                proof {
                    reveal_strlit("master");
                }
                String::from_str("master")
            },
            SyncMode::Slave => {
                proof {
                    reveal_strlit("slave");
                }
                String::from_str("slave")
            },
            SyncMode::Bidirectional => {
                proof {
                    reveal_strlit("bidirectional");
                }
                String::from_str("bidirectional")
            },
        }
    }
}

/// Different modes have different names, so a name read back names the mode written.
pub proof fn lemma_mode_names_distinct(a: SyncMode, b: SyncMode)
    requires
        a != b,
    ensures
        mode_name(a) != mode_name(b),
{
    assert(mode_name(SyncMode::Master).len() == 6);
    assert(mode_name(SyncMode::Slave).len() == 5);
    assert(mode_name(SyncMode::Bidirectional).len() == 13);
}

} // verus!
