use vstd::prelude::*;

verus! {

/// The student record that managed code creates and edits through the
/// native exports: an age and the address of a UTF-16 name owned by the
/// managed side.
#[derive(Clone, Copy, Debug)]
pub struct Student {
    pub age: i32,
    pub name: usize,
}

impl Student {
    /// A student of the given age and name.
    pub fn new(age: i32, name: usize) -> (s: Student)
        ensures
            s.age == age,
            s.name == name,
    {
        Student { age, name }
    }

    /// Sets the age and leaves the name alone.
    pub fn set_age(&mut self, age: i32)
        ensures
            final(self).age == age,
            final(self).name == old(self).name,
    {
        self.age = age;
    }

    /// The age.
    pub fn get_age(&self) -> (a: i32)
        ensures
            a == self.age,
    {
        self.age
    }

    /// Sets the name and leaves the age alone.
    pub fn set_name(&mut self, name: usize)
        ensures
            final(self).name == name,
            final(self).age == old(self).age,
    {
        self.name = name;
    }

    /// The name.
    pub fn get_name(&self) -> (n: usize)
        ensures
            n == self.name,
    {
        self.name
    }
}


/// Setting the age and then the name leaves both as set: each setter keeps
/// the other field.
pub proof fn law_student_read_after_write(s: Student, age: i32, name: usize)
    ensures
        ({
            let s1 = Student { age, ..s };
            let s2 = Student { name, ..s1 };
            s2.age == age && s2.name == name && s1.name == s.name
        }),
{
}

} // verus!
