use vstd::prelude::*;

verus! {

/// Whether entry `i` is the first one of `entries` under `key`.
pub open spec fn is_first_entry<V>(entries: Seq<(String, V)>, key: Seq<char>, i: int) -> bool {
    &&& 0 <= i < entries.len()
    &&& entries[i].0@ == key
    &&& forall|j: int| 0 <= j < i ==> #[trigger] entries[j].0@ != key
}

/// Whether some entry of `entries` is filed under `key`.
pub open spec fn has_entry<V>(entries: Seq<(String, V)>, key: Seq<char>) -> bool {
    exists|i: int| 0 <= i < entries.len() && #[trigger] entries[i].0@ == key
}

/// The index of the first entry filed under `key`.
fn find_entry<V>(entries: &Vec<(String, V)>, key: &str) -> (r: Option<usize>)
    ensures
        match r {
            Some(i) => is_first_entry(entries@, key@, i as int),
            None => !has_entry(entries@, key@),
        },
{
    let wanted = key.to_owned();
    let mut i: usize = 0;
    while i < entries.len()
        invariant
            i <= entries@.len(),
            wanted@ == key@,
            forall|j: int| 0 <= j < i ==> #[trigger] entries@[j].0@ != key@,
        decreases entries@.len() - i,
    {
        if entries[i].0 == wanted {
            return Some(i);
        }
        i = i + 1;
    }
    None
}

/// A method of a host class: its obfuscated name and its JVM signature.
pub struct Method {
    pub name: String,
    pub signature: String,
}

/// A field of a host class, by its obfuscated name.
pub struct Field {
    pub name: String,
}

/// A host class: its obfuscated name, and its methods and fields filed under
/// their readable names. Where a name is filed twice, the first entry counts.
pub struct MinecraftClass {
    pub name: String,
    pub methods: Vec<(String, Method)>,
    pub fields: Vec<(String, Field)>,
}

impl MinecraftClass {
    /// Whether a method is filed under `name`.
    pub open spec fn has_method(&self, name: Seq<char>) -> bool {
        has_entry(self.methods@, name)
    }

    /// Whether a field is filed under `name`.
    pub open spec fn has_field(&self, name: Seq<char>) -> bool {
        has_entry(self.fields@, name)
    }

    /// The method filed under `name`.
    pub fn get_method(&self, name: &str) -> (r: &Method)
        requires
            self.has_method(name@),
        ensures
            exists|i: int| is_first_entry(self.methods@, name@, i) && *r == self.methods@[i].1,
    {
        let i = find_entry(&self.methods, name).unwrap();
        &self.methods[i].1
    }

    /// The field filed under `name`.
    pub fn get_field(&self, name: &str) -> (r: &Field)
        requires
            self.has_field(name@),
        ensures
            exists|i: int| is_first_entry(self.fields@, name@, i) && *r == self.fields@[i].1,
    {
        let i = find_entry(&self.fields, name).unwrap();
        &self.fields[i].1
    }
}

/// The table that maps readable class names to the host's classes.
pub struct Mapping {
    pub classes: Vec<(String, MinecraftClass)>,
}

impl Mapping {
    /// A mapping over these classes, filed under their readable names.
    pub fn from_classes(classes: Vec<(String, MinecraftClass)>) -> (r: Mapping)
        ensures
            r.classes == classes,
    {
        Mapping { classes }
    }

    /// Whether a class is filed under `name`.
    pub open spec fn has_class(&self, name: Seq<char>) -> bool {
        has_entry(self.classes@, name)
    }

    /// The class filed under `name`.
    pub fn get_class(&self, name: &str) -> (r: &MinecraftClass)
        requires
            self.has_class(name@),
        ensures
            exists|i: int| is_first_entry(self.classes@, name@, i) && *r == self.classes@[i].1,
    {
        let i = find_entry(&self.classes, name).unwrap();
        &self.classes[i].1
    }
}

/// The host classes the payload uses.
#[derive(Debug, Copy, Clone, PartialEq, Eq, Structural)]
pub enum MinecraftClassType {
    Minecraft,
    LocalPlayer,
    Level,
    PlayerCapabilities,
    EntityPlayer,
    Entity,
    Vec3,
    Window,
}

/// The readable, slash-separated name of a host class.
pub open spec fn class_type_name(t: MinecraftClassType) -> Seq<char> {
    match t {
        MinecraftClassType::Minecraft => "net/minecraft/client/Minecraft"@,
        MinecraftClassType::LocalPlayer => "net/minecraft/client/player/LocalPlayer"@,
        MinecraftClassType::Level => "net/minecraft/client/multiplayer/ClientLevel"@,
        MinecraftClassType::PlayerCapabilities => "net/minecraft/entity/entity/PlayerCapabilities"@,
        MinecraftClassType::EntityPlayer => "net/minecraft/entity/entity/EntityPlayer"@,
        MinecraftClassType::Entity => "net/minecraft/world/entity/Entity"@,
        MinecraftClassType::Vec3 => "net/minecraft/world/phys/Vec3"@,
        MinecraftClassType::Window => "com/mojang/blaze3d/platform/Window"@,
    }
}

impl MinecraftClassType {
    /// The readable name under which the class is filed in a mapping.
    pub fn get_name(&self) -> (r: &'static str)
        ensures
            r@ == class_type_name(*self),
    {
        match self {
            MinecraftClassType::Minecraft => "net/minecraft/client/Minecraft",
            MinecraftClassType::LocalPlayer => "net/minecraft/client/player/LocalPlayer",
            MinecraftClassType::Level => "net/minecraft/client/multiplayer/ClientLevel",
            MinecraftClassType::PlayerCapabilities => "net/minecraft/entity/entity/PlayerCapabilities",
            MinecraftClassType::EntityPlayer => "net/minecraft/entity/entity/EntityPlayer",
            MinecraftClassType::Entity => "net/minecraft/world/entity/Entity",
            MinecraftClassType::Vec3 => "net/minecraft/world/phys/Vec3",
            MinecraftClassType::Window => "com/mojang/blaze3d/platform/Window",
        }
    }
}

/// The type of a host field, as the JVM spells it.
pub enum FieldType<'local> {
    Boolean,
    Byte,
    Char,
    Short,
    Int,
    Long,
    Float,
    Double,
    String,
    /// An object of a host class, resolved through a mapping.
    Object(MinecraftClassType, &'local Mapping),
}

impl FieldType<'_> {
    /// Whether the signature can be written: an object's class must be in its
    /// mapping.
    pub open spec fn resolvable(&self) -> bool {
        match self {
            FieldType::Object(t, m) => m.has_class(class_type_name(*t)),
            _ => true,
        }
    }

    /// The JVM type descriptor of the field type.
    pub fn get_signature(&self) -> (r: String)
        requires
            self.resolvable(),
        ensures
            self is Boolean ==> r@ == "Z"@,
            self is Byte ==> r@ == "B"@,
            self is Char ==> r@ == "C"@,
            self is Short ==> r@ == "S"@,
            self is Int ==> r@ == "I"@,
            self is Long ==> r@ == "J"@,
            self is Float ==> r@ == "F"@,
            self is Double ==> r@ == "D"@,
            self is String ==> r@ == "Ljava/lang/String;"@,
            self matches FieldType::Object(t, m) ==> exists|i: int|
                is_first_entry(m.classes@, class_type_name(*t), i) && r@ == seq!['L']
                    + m.classes@[i].1.name@ + seq![';'],
    {
        match self {
            FieldType::Boolean => String::from_str("Z"),
            FieldType::Byte => String::from_str("B"),
            FieldType::Char => String::from_str("C"),
            FieldType::Short => String::from_str("S"),
            FieldType::Int => String::from_str("I"),
            FieldType::Long => String::from_str("J"),
            FieldType::Float => String::from_str("F"),
            FieldType::Double => String::from_str("D"),
            FieldType::String => String::from_str("Ljava/lang/String;"),
            FieldType::Object(class_type, mapping) => {
                let class = mapping.get_class(class_type.get_name());
                let mut s = String::from_str("L");
                s.append(class.name.as_str());
                s.append(";");
                proof {
                    reveal_strlit("L");
                    reveal_strlit(";");
                }
                assert(s@ =~= seq!['L'] + class.name@ + seq![';']);
                s
            },
        }
    }
}

} // verus!
