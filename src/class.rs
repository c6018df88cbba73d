use vstd::prelude::*;
use vstd::string::{StrSliceExecFns, StringExecFns};

verus! {

/// A type as a class file names it in a descriptor.
pub enum JavaType {
    Boolean,
    Byte,
    Char,
    Short,
    Int,
    Long,
    Float,
    Double,
    Void,
    /// A class or interface, by its internal name (`java/lang/String`).
    Class(String),
    /// An array of the inner type.
    Array(Box<JavaType>),
}

/// The primitive type that a one-letter descriptor names.
pub open spec fn primitive_of(c: char) -> Option<JavaType> {
    if c == 'Z' {
        Some(JavaType::Boolean)
    } else if c == 'B' {
        Some(JavaType::Byte)
    } else if c == 'C' {
        Some(JavaType::Char)
    } else if c == 'S' {
        Some(JavaType::Short)
    } else if c == 'I' {
        Some(JavaType::Int)
    } else if c == 'J' {
        Some(JavaType::Long)
    } else if c == 'F' {
        Some(JavaType::Float)
    } else if c == 'D' {
        Some(JavaType::Double)
    } else if c == 'V' {
        Some(JavaType::Void)
    } else {
        None
    }
}

/// The descriptor text of a type.
pub open spec fn descriptor_of(t: JavaType) -> Seq<char>
    decreases t,
{
    match t {
        JavaType::Boolean => seq!['Z'],
        JavaType::Byte => seq!['B'],
        JavaType::Char => seq!['C'],
        JavaType::Short => seq!['S'],
        JavaType::Int => seq!['I'],
        JavaType::Long => seq!['J'],
        JavaType::Float => seq!['F'],
        JavaType::Double => seq!['D'],
        JavaType::Void => seq!['V'],
        JavaType::Class(name) => seq!['L'] + name@ + seq![';'],
        JavaType::Array(inner) => seq!['['] + descriptor_of(*inner),
    }
}

/// Whether `s` is a well-formed descriptor: a primitive letter, `L` name `;` with a non-empty
/// name free of `;`, or `[` followed by a descriptor.
pub open spec fn valid_descriptor(s: Seq<char>) -> bool
    decreases s.len(),
{
    if s.len() == 0 {
        false
    } else if s[0] == '[' {
        valid_descriptor(s.drop_first())
    } else if s[0] == 'L' {
        s.len() >= 3 && s.last() == ';' && forall|i: int| 1 <= i < s.len() - 1 ==> s[i] != ';'
    } else {
        s.len() == 1 && primitive_of(s[0]).is_some()
    }
}

/// Whether every class name inside `t` is non-empty and free of `;`, as class files require.
pub open spec fn well_formed(t: JavaType) -> bool
    decreases t,
{
    match t {
        JavaType::Class(name) => name@.len() > 0 && forall|i: int| 0 <= i < name@.len() ==> name@[i] != ';',
        JavaType::Array(inner) => well_formed(*inner),
        _ => true,
    }
}

/// The descriptor of a well-formed type is well formed, so parsing it succeeds and yields a
/// type with the same descriptor: printing and parsing agree.
pub proof fn lemma_descriptor_round_trip(t: JavaType)
    requires
        well_formed(t),
    ensures
        valid_descriptor(descriptor_of(t)),
    decreases t,
{
    match t {
        JavaType::Class(name) => {
            let s = descriptor_of(t);
            assert(s.len() == name@.len() + 2);
            assert forall|i: int| 1 <= i < s.len() - 1 implies s[i] != ';' by {
                assert(s[i] == name@[i - 1]);
            }
        },
        JavaType::Array(inner) => {
            lemma_descriptor_round_trip(*inner);
            assert(descriptor_of(t).drop_first() =~= descriptor_of(*inner));
        },
        _ => {},
    }
}

/// The primitive type that a one-letter descriptor names.
fn primitive(c: char) -> (r: Option<JavaType>)
    ensures
        r == primitive_of(c),
{
    match c {
        'Z' => Some(JavaType::Boolean),
        'B' => Some(JavaType::Byte),
        'C' => Some(JavaType::Char),
        'S' => Some(JavaType::Short),
        'I' => Some(JavaType::Int),
        'J' => Some(JavaType::Long),
        'F' => Some(JavaType::Float),
        'D' => Some(JavaType::Double),
        'V' => Some(JavaType::Void),
        _ => None,
    }
}

impl JavaType {
    /// The descriptor text of this type.
    pub fn descriptor(&self) -> (r: String)
        ensures
            r@ == descriptor_of(*self),
        decreases self,
    {
        match self {
            JavaType::Boolean => {
                proof {
                    reveal_strlit("Z");
                }
                String::from_str("Z")
            },
            JavaType::Byte => {
                proof {
                    reveal_strlit("B");
                }
                String::from_str("B")
            },
            JavaType::Char => {
                proof {
                    reveal_strlit("C");
                }
                String::from_str("C")
            },
            JavaType::Short => {
                proof {
                    reveal_strlit("S");
                }
                String::from_str("S")
            },
            JavaType::Int => {
                proof {
                    reveal_strlit("I");
                }
                String::from_str("I")
            },
            JavaType::Long => {
                proof {
                    reveal_strlit("J");
                }
                String::from_str("J")
            },
            JavaType::Float => {
                proof {
                    reveal_strlit("F");
                }
                String::from_str("F")
            },
            JavaType::Double => {
                proof {
                    reveal_strlit("D");
                }
                String::from_str("D")
            },
            JavaType::Void => {
                proof {
                    reveal_strlit("V");
                }
                String::from_str("V")
            },
            JavaType::Class(name) => {
                proof {
                    reveal_strlit("L");
                    reveal_strlit(";");
                }
                let mut out = String::from_str("L");
                out.append(name.as_str());
                out.append(";");
                out
            },
            JavaType::Array(inner) => {
                proof {
                    reveal_strlit("[");
                }
                let mut out = String::from_str("[");
                let rest = inner.descriptor();
                out.append(rest.as_str());
                out
            },
        }
    }

    /// Parses a type descriptor; `None` when it is not well formed.
    pub fn parse(descriptor: &str) -> (r: Option<JavaType>)
        ensures
            r.is_some() == valid_descriptor(descriptor@),
            r matches Some(t) ==> descriptor_of(t) == descriptor@,
        decreases descriptor@.len(),
    {
        let n = descriptor.unicode_len();
        if n == 0 {
            return None;
        }
        let c = descriptor.get_char(0);
        if c == '[' {
            let rest = descriptor.substring_char(1, n);
            assert(rest@ =~= descriptor@.drop_first());
            match JavaType::parse(rest) {
                Some(t) => {
                    assert(descriptor@ =~= seq!['['] + rest@);
                    Some(JavaType::Array(Box::new(t)))
                },
                None => None,
            }
        } else if c == 'L' {
            if n < 3 || descriptor.get_char(n - 1) != ';' {
                return None;
            }
            let mut i: usize = 1;
            while i < n - 1
                invariant
                    n as int == descriptor@.len(),
                    n >= 3,
                    descriptor@[0] == 'L',
                    1 <= i <= n - 1,
                    forall|j: int| 1 <= j < i ==> descriptor@[j] != ';',
                decreases n - i,
            {
                if descriptor.get_char(i) == ';' {
                    return None;
                }
                i = i + 1;
            }
            let name = descriptor.substring_char(1, n - 1).to_owned();
            assert(descriptor@ =~= seq!['L'] + name@ + seq![';']);
            Some(JavaType::Class(name))
        } else if n == 1 {
            primitive(c)
        } else {
            None
        }
    }
}

} // verus!
