use vstd::prelude::*;

verus! {

/// A sample record used by the test suite.
#[derive(Debug, PartialEq, Eq)]
pub struct Wizard {
    pub name: String,
    pub is_late: bool,
    pub color: String,
    pub age: u32,
    pub friends: Vec<String>,
}

/// The brown wizard.
pub fn radagast() -> (r: Wizard)
    ensures
        r.name@ == "Radagast"@,
        r.color@ == "Brown"@,
        r.is_late == true,
        r.age == 8000,
        r.friends@.len() == 1,
        r.friends@[0]@ == "animals"@,
{
    let mut friends: Vec<String> = Vec::new();
    friends.push("animals".to_owned());
    Wizard {
        name: "Radagast".to_owned(),
        color: "Brown".to_owned(),
        is_late: true,
        age: 8000,
        friends,
    }
}

/// The white wizard.
pub fn gandalf_the_white() -> (r: Wizard)
    ensures
        r.name@ == "Gandalf"@,
        r.color@ == "White"@,
        r.is_late == false,
        r.age == 9001,
        r.friends@.len() == 4,
        r.friends@[0]@ == "hobbits"@,
        r.friends@[1]@ == "dwarves"@,
        r.friends@[2]@ == "elves"@,
        r.friends@[3]@ == "men"@,
{
    let mut friends: Vec<String> = Vec::new();
    friends.push("hobbits".to_owned());
    friends.push("dwarves".to_owned());
    friends.push("elves".to_owned());
    friends.push("men".to_owned());
    Wizard {
        name: "Gandalf".to_owned(),
        color: "White".to_owned(),
        is_late: false,
        age: 9001,
        friends,
    }
}

/// The grey wizard.
pub fn gandalf_the_grey() -> (r: Wizard)
    ensures
        r.name@ == "Gandalf"@,
        r.color@ == "Grey"@,
        r.is_late == false,
        r.age == 9000,
        r.friends@.len() == 4,
        r.friends@[0]@ == "hobbits"@,
        r.friends@[1]@ == "dwarves"@,
        r.friends@[2]@ == "elves"@,
        r.friends@[3]@ == "men"@,
{
    let mut friends: Vec<String> = Vec::new();
    friends.push("hobbits".to_owned());
    friends.push("dwarves".to_owned());
    friends.push("elves".to_owned());
    friends.push("men".to_owned());
    Wizard {
        name: "Gandalf".to_owned(),
        color: "Grey".to_owned(),
        is_late: false,
        age: 9000,
        friends,
    }
}

} // verus!
