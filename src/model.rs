use vstd::prelude::*;

verus! {

/// One documented parameter of a method.
pub struct Param {
    pub name: String,
    pub var_type: String,
    pub desc: String,
}

/// One method of a class, with what its documentation comment says of it.
pub struct Method {
    pub name: String,
    pub privacy: String,
    pub description: String,
    pub return_type: String,
    pub parameters: Vec<Param>,
}

/// What one source file documents.
pub struct Class {
    pub class_name: String,
    pub access: String,
    pub package_name: String,
    pub description: String,
    pub dependencies: Vec<String>,
    pub methods: Vec<Method>,
}

pub ghost struct ParamV {
    pub name: Seq<char>,
    pub var_type: Seq<char>,
    pub desc: Seq<char>,
}

pub ghost struct MethodV {
    pub name: Seq<char>,
    pub privacy: Seq<char>,
    pub description: Seq<char>,
    pub return_type: Seq<char>,
    pub parameters: Seq<ParamV>,
}

pub ghost struct ClassV {
    pub class_name: Seq<char>,
    pub access: Seq<char>,
    pub package_name: Seq<char>,
    pub description: Seq<char>,
    pub dependencies: Seq<Seq<char>>,
    pub methods: Seq<MethodV>,
}

impl View for Param {
    type V = ParamV;

    open spec fn view(&self) -> ParamV {
        ParamV { name: self.name@, var_type: self.var_type@, desc: self.desc@ }
    }
}

pub open spec fn params_view(ps: Seq<Param>) -> Seq<ParamV> {
    ps.map_values(|p: Param| p@)
}

impl View for Method {
    type V = MethodV;

    open spec fn view(&self) -> MethodV {
        MethodV {
            name: self.name@,
            privacy: self.privacy@,
            description: self.description@,
            return_type: self.return_type@,
            parameters: params_view(self.parameters@),
        }
    }
}

pub open spec fn methods_view(ms: Seq<Method>) -> Seq<MethodV> {
    ms.map_values(|m: Method| m@)
}

pub open spec fn strings_view(ss: Seq<String>) -> Seq<Seq<char>> {
    ss.map_values(|s: String| s@)
}

impl View for Class {
    type V = ClassV;

    open spec fn view(&self) -> ClassV {
        ClassV {
            class_name: self.class_name@,
            access: self.access@,
            package_name: self.package_name@,
            description: self.description@,
            dependencies: strings_view(self.dependencies@),
            methods: methods_view(self.methods@),
        }
    }
}

} // verus!
