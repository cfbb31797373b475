//! The catalog of compilation stages: a closed set, each with its canonical
//! identifier, its accepted aliases, the flags the toolchain is given for it,
//! a display name, a description, and the way its output is emitted.

use crate::text::{ascii_lowercase, ascii_uppercase, lowercase};
use vstd::prelude::*;
use vstd::utf8::is_ascii_chars;

verus! {

/// A representation of compiled source that a caller can ask for.
#[derive(Debug, Clone, Copy, PartialEq, Eq, Structural)]
pub enum CompileStage {
    Ast,
    Hir,
    Mir,
    MirCfg,
    Expanded,
    Llvm,
    Asm,
}

/// Where the toolchain leaves the output of a stage.
#[derive(Debug, Clone, Copy, PartialEq, Eq, Structural)]
pub enum EmissionMode {
    /// The output is written to the standard output of the toolchain.
    StdoutCapture,
    /// The output is written to a file that the toolchain is told to create.
    ArtifactFile,
}

/// The form in which an identifier is looked up: its lower-case form. For an
/// identifier of ASCII characters that is the identifier with `A` to `Z`
/// replaced by `a` to `z`.
pub open spec fn lowered(s: Seq<char>) -> Seq<char> {
    if is_ascii_chars(s) {
        ascii_lowercase(s)
    } else {
        lowercase(s)
    }
}

/// The stages in the order of the catalog.
pub open spec fn catalog() -> Seq<CompileStage> {
    seq![
        CompileStage::Ast,
        CompileStage::Hir,
        CompileStage::Mir,
        CompileStage::MirCfg,
        CompileStage::Expanded,
        CompileStage::Llvm,
        CompileStage::Asm,
    ]
}

impl CompileStage {
    /// Whether `s` is one of the aliases under which this stage is accepted.
    /// Aliases are in lower case.
    pub open spec fn has_alias(self, s: Seq<char>) -> bool {
        match self {
            CompileStage::Ast => s == "ast"@,
            CompileStage::Hir => s == "hir"@,
            CompileStage::Mir => s == "mir"@,
            CompileStage::MirCfg => s == "mir-cfg"@ || s == "mir_cfg"@ || s == "cfg"@,
            CompileStage::Expanded => s == "expanded"@ || s == "expand"@,
            CompileStage::Llvm => s == "llvm"@ || s == "llvm-ir"@,
            CompileStage::Asm => s == "asm"@ || s == "assembly"@,
        }
    }

    /// The stage that has the alias `s`, if there is one. The stages are tried
    /// in the order of the catalog; `alias_names_one_stage` shows that the
    /// order does not matter.
    pub open spec fn of_alias(s: Seq<char>) -> Option<CompileStage> {
        if CompileStage::Ast.has_alias(s) {
            Some(CompileStage::Ast)
        } else if CompileStage::Hir.has_alias(s) {
            Some(CompileStage::Hir)
        } else if CompileStage::Mir.has_alias(s) {
            Some(CompileStage::Mir)
        } else if CompileStage::MirCfg.has_alias(s) {
            Some(CompileStage::MirCfg)
        } else if CompileStage::Expanded.has_alias(s) {
            Some(CompileStage::Expanded)
        } else if CompileStage::Llvm.has_alias(s) {
            Some(CompileStage::Llvm)
        } else if CompileStage::Asm.has_alias(s) {
            Some(CompileStage::Asm)
        } else {
            None
        }
    }

    /// The stage that the identifier `s` resolves to, in whatever case it is
    /// written; `None` where it names no stage.
    pub open spec fn resolve(s: Seq<char>) -> Option<CompileStage> {
        Self::of_alias(lowered(s))
    }

    /// The canonical identifier of the stage.
    pub open spec fn spec_id(self) -> Seq<char> {
        match self {
            CompileStage::Ast => "ast"@,
            CompileStage::Hir => "hir"@,
            CompileStage::Mir => "mir"@,
            CompileStage::MirCfg => "mir-cfg"@,
            CompileStage::Expanded => "expanded"@,
            CompileStage::Llvm => "llvm"@,
            CompileStage::Asm => "asm"@,
        }
    }

    /// The flags that the toolchain is given for the stage.
    pub open spec fn spec_rustc_args(self) -> Seq<Seq<char>> {
        match self {
            CompileStage::Ast => seq!["-Z"@, "unpretty=ast-tree"@],
            CompileStage::Hir => seq!["-Z"@, "unpretty=hir"@],
            CompileStage::Mir => seq!["-Z"@, "unpretty=mir"@],
            CompileStage::MirCfg => seq!["-Z"@, "unpretty=mir-cfg"@],
            CompileStage::Expanded => seq!["-Z"@, "unpretty=expanded"@],
            CompileStage::Llvm => seq!["--emit=llvm-ir"@],
            CompileStage::Asm => seq!["--emit=asm"@, "-C"@, "llvm-args=-x86-asm-syntax=intel"@],
        }
    }

    /// The display name of the stage.
    pub open spec fn spec_name(self) -> Seq<char> {
        match self {
            CompileStage::Ast => "抽象语法树 (AST)"@,
            CompileStage::Hir => "高级中间表示 (HIR)"@,
            CompileStage::Mir => "中级中间表示 (MIR)"@,
            CompileStage::MirCfg => "MIR 控制流图"@,
            CompileStage::Expanded => "宏展开"@,
            CompileStage::Llvm => "LLVM 中间表示"@,
            CompileStage::Asm => "汇编代码"@,
        }
    }

    /// The description of the stage.
    pub open spec fn spec_description(self) -> Seq<char> {
        match self {
            CompileStage::Ast => "展示代码的语法结构，包括函数定义、变量声明、表达式结构等。"@,
            CompileStage::Hir => "经过语义分析的中间表示，包含完整的类型信息、名称解析、泛型实例化和生命周期信息。"@,
            CompileStage::Mir => "Rust 特有的中间表示，用于所有权检查和优化，包括基本块、控制流图、所有权和借用操作。"@,
            CompileStage::MirCfg => "以文本形式展示 MIR 的控制流图，便于理解程序流程。"@,
            CompileStage::Expanded => "显示所有宏扩展后的完整代码，包括标准库中的宏。"@,
            CompileStage::Llvm => "Rust 使用 LLVM 作为后端，这是生成的 LLVM 中间表示，包括函数定义和调用、内存操作。"@,
            CompileStage::Asm => "最终的机器码，与目标平台相关，包括 x86/x86_64 汇编、系统调用、函数调用约定。"@,
        }
    }

    /// How the output of the stage is emitted: the two stages of the code
    /// generator write an artifact file, the others write to standard output.
    pub open spec fn spec_emission_mode(self) -> EmissionMode {
        match self {
            CompileStage::Llvm | CompileStage::Asm => EmissionMode::ArtifactFile,
            _ => EmissionMode::StdoutCapture,
        }
    }

    /// The name of the artifact file of a stage that emits one.
    pub open spec fn spec_artifact_file(self) -> Option<Seq<char>> {
        match self {
            CompileStage::Llvm => Some("output.ll"@),
            CompileStage::Asm => Some("output.s"@),
            _ => None,
        }
    }

    /// The stage with the alias `s`, which is taken as it is written.
    pub fn from_alias(s: &str) -> (stage: Option<Self>)
        ensures
            stage == Self::of_alias(s@),
    {
        if s.eq("ast") {
            Some(CompileStage::Ast)
        } else if s.eq("hir") {
            Some(CompileStage::Hir)
        } else if s.eq("mir") {
            Some(CompileStage::Mir)
        } else if s.eq("mir-cfg") || s.eq("mir_cfg") || s.eq("cfg") {
            Some(CompileStage::MirCfg)
        } else if s.eq("expanded") || s.eq("expand") {
            Some(CompileStage::Expanded)
        } else if s.eq("llvm") || s.eq("llvm-ir") {
            Some(CompileStage::Llvm)
        } else if s.eq("asm") || s.eq("assembly") {
            Some(CompileStage::Asm)
        } else {
            None
        }
    }

    /// Resolves an identifier to its stage. Case is ignored and every alias of
    /// a stage is accepted; an identifier that is no alias gives `None`.
    pub fn from_str(s: &str) -> (stage: Option<Self>)
        ensures
            stage == Self::resolve(s@),
            stage is None <==> forall|other: CompileStage| !other.has_alias(lowered(s@)),
    {
        let lower = s.to_lowercase();
        proof {
            Self::alias_names_one_stage(lowered(s@));
        }
        Self::from_alias(lower.as_str())
    }

    /// The canonical identifier of the stage.
    pub fn id(&self) -> (id: &'static str)
        ensures
            id@ == self.spec_id(),
    {
        match self {
            CompileStage::Ast => "ast",
            CompileStage::Hir => "hir",
            CompileStage::Mir => "mir",
            CompileStage::MirCfg => "mir-cfg",
            CompileStage::Expanded => "expanded",
            CompileStage::Llvm => "llvm",
            CompileStage::Asm => "asm",
        }
    }

    /// The flags that the toolchain is given for the stage. There is at least
    /// one for every stage.
    pub fn get_rustc_args(&self) -> (args: Vec<&'static str>)
        ensures
            args.deep_view() == self.spec_rustc_args(),
            args.len() > 0,
    {
        let args = match self {
            CompileStage::Ast => vec!["-Z", "unpretty=ast-tree"],
            CompileStage::Hir => vec!["-Z", "unpretty=hir"],
            CompileStage::Mir => vec!["-Z", "unpretty=mir"],
            CompileStage::MirCfg => vec!["-Z", "unpretty=mir-cfg"],
            CompileStage::Expanded => vec!["-Z", "unpretty=expanded"],
            CompileStage::Llvm => vec!["--emit=llvm-ir"],
            CompileStage::Asm => vec!["--emit=asm", "-C", "llvm-args=-x86-asm-syntax=intel"],
        };
        assert(args.deep_view() =~= self.spec_rustc_args());
        args
    }

    /// The display name of the stage.
    pub fn name(&self) -> (name: &'static str)
        ensures
            name@ == self.spec_name(),
    {
        match self {
            CompileStage::Ast => "抽象语法树 (AST)",
            CompileStage::Hir => "高级中间表示 (HIR)",
            CompileStage::Mir => "中级中间表示 (MIR)",
            CompileStage::MirCfg => "MIR 控制流图",
            CompileStage::Expanded => "宏展开",
            CompileStage::Llvm => "LLVM 中间表示",
            CompileStage::Asm => "汇编代码",
        }
    }

    /// The description of the stage.
    pub fn description(&self) -> (description: &'static str)
        ensures
            description@ == self.spec_description(),
    {
        match self {
            CompileStage::Ast => "展示代码的语法结构，包括函数定义、变量声明、表达式结构等。",
            CompileStage::Hir => "经过语义分析的中间表示，包含完整的类型信息、名称解析、泛型实例化和生命周期信息。",
            CompileStage::Mir => "Rust 特有的中间表示，用于所有权检查和优化，包括基本块、控制流图、所有权和借用操作。",
            CompileStage::MirCfg => "以文本形式展示 MIR 的控制流图，便于理解程序流程。",
            CompileStage::Expanded => "显示所有宏扩展后的完整代码，包括标准库中的宏。",
            CompileStage::Llvm => "Rust 使用 LLVM 作为后端，这是生成的 LLVM 中间表示，包括函数定义和调用、内存操作。",
            CompileStage::Asm => "最终的机器码，与目标平台相关，包括 x86/x86_64 汇编、系统调用、函数调用约定。",
        }
    }

    /// How the output of the stage is emitted.
    pub fn emission_mode(&self) -> (mode: EmissionMode)
        ensures
            mode == self.spec_emission_mode(),
    {
        match self {
            CompileStage::Llvm | CompileStage::Asm => EmissionMode::ArtifactFile,
            _ => EmissionMode::StdoutCapture,
        }
    }

    /// The name of the file that the toolchain is told to write for the stage:
    /// one for each stage that emits an artifact file, none for the others.
    pub fn artifact_file(&self) -> (file: Option<&'static str>)
        ensures
            file is Some <==> self.spec_emission_mode() == EmissionMode::ArtifactFile,
            file matches Some(name) ==> Some(name@) == self.spec_artifact_file(),
            file is None ==> self.spec_artifact_file() is None,
    {
        match self {
            CompileStage::Llvm => Some("output.ll"),
            CompileStage::Asm => Some("output.s"),
            _ => None,
        }
    }

    /// No alias belongs to two stages: the stage that `of_alias` gives for an
    /// alias is the only stage that has it, and it gives none only where no
    /// stage has it.
    pub proof fn alias_names_one_stage(s: Seq<char>)
        ensures
            forall|stage: CompileStage|
                #![trigger stage.has_alias(s)]
                stage.has_alias(s) <==> Self::of_alias(s) == Some(stage),
    {
        reveal_strlit("ast");
        reveal_strlit("hir");
        reveal_strlit("mir");
        reveal_strlit("mir-cfg");
        reveal_strlit("mir_cfg");
        reveal_strlit("cfg");
        reveal_strlit("expanded");
        reveal_strlit("expand");
        reveal_strlit("llvm");
        reveal_strlit("llvm-ir");
        reveal_strlit("asm");
        reveal_strlit("assembly");
        assert("ast"@.len() == 3 && "ast"@[0] == 'a' && "ast"@[1] == 's');
        assert("hir"@.len() == 3 && "hir"@[0] == 'h');
        assert("mir"@.len() == 3 && "mir"@[0] == 'm');
        assert("cfg"@.len() == 3 && "cfg"@[0] == 'c');
        assert("asm"@.len() == 3 && "asm"@[0] == 'a' && "asm"@[1] == 's' && "asm"@[2] == 'm');
        assert("ast"@[2] == 't');
        assert("llvm"@.len() == 4);
        assert("expand"@.len() == 6);
        assert("mir-cfg"@.len() == 7 && "mir-cfg"@[3] == '-');
        assert("mir_cfg"@.len() == 7 && "mir_cfg"@[3] == '_');
        assert("llvm-ir"@.len() == 7 && "llvm-ir"@[3] == 'm');
        assert("expanded"@.len() == 8 && "expanded"@[0] == 'e');
        assert("assembly"@.len() == 8 && "assembly"@[0] == 'a');
    }

    /// Every alias is written in lower-case ASCII letters, `-` and `_`, so it
    /// is its own lower-case form.
    pub proof fn alias_is_lower_case(self, alias: Seq<char>)
        requires
            self.has_alias(alias),
        ensures
            is_ascii_chars(alias),
            ascii_lowercase(alias) == alias,
            lowered(alias) == alias,
    {
        reveal_strlit("ast");
        reveal_strlit("hir");
        reveal_strlit("mir");
        reveal_strlit("mir-cfg");
        reveal_strlit("mir_cfg");
        reveal_strlit("cfg");
        reveal_strlit("expanded");
        reveal_strlit("expand");
        reveal_strlit("llvm");
        reveal_strlit("llvm-ir");
        reveal_strlit("asm");
        reveal_strlit("assembly");
        assert forall|i: int| 0 <= i < alias.len() implies 'a' <= #[trigger] alias[i] <= 'z'
            || alias[i] == '-' || alias[i] == '_' by {}
        assert(ascii_lowercase(alias) =~= alias);
    }

    /// An alias of a stage resolves to that stage.
    pub proof fn alias_resolves(self, alias: Seq<char>)
        requires
            self.has_alias(alias),
        ensures
            Self::resolve(alias) == Some(self),
    {
        self.alias_is_lower_case(alias);
        Self::alias_names_one_stage(alias);
    }

    /// An alias of a stage resolves to that stage in whatever mix of upper and
    /// lower case it is spelled: every text of ASCII characters whose letters,
    /// put in lower case, give the alias.
    pub proof fn alias_resolves_in_any_case(self, spelling: Seq<char>)
        requires
            is_ascii_chars(spelling),
            self.has_alias(ascii_lowercase(spelling)),
        ensures
            Self::resolve(spelling) == Some(self),
    {
        Self::alias_names_one_stage(ascii_lowercase(spelling));
    }

    /// The case of its letters does not change what an identifier of ASCII
    /// characters resolves to: it resolves as its lower-case form does, and
    /// as its upper-case form does.
    pub proof fn case_does_not_matter(identifier: Seq<char>)
        requires
            is_ascii_chars(identifier),
        ensures
            Self::resolve(identifier) == Self::resolve(ascii_lowercase(identifier)),
            Self::resolve(identifier) == Self::resolve(ascii_uppercase(identifier)),
    {
        let lower = ascii_lowercase(identifier);
        let upper = ascii_uppercase(identifier);
        assert(is_ascii_chars(lower));
        assert(is_ascii_chars(upper));
        assert(ascii_lowercase(lower) =~= lower);
        assert(ascii_lowercase(upper) =~= lower);
    }

    /// The canonical identifier of a stage is one of its aliases, and so
    /// resolves to the stage.
    pub proof fn id_resolves(self)
        ensures
            self.has_alias(self.spec_id()),
            Self::resolve(self.spec_id()) == Some(self),
    {
        self.alias_resolves(self.spec_id());
    }
}

/// The stages that can be asked for, in the order of the catalog.
pub fn get_available_stages() -> (stages: Vec<CompileStage>)
    ensures
        stages@ == catalog(),
{
    vec![
        CompileStage::Ast,
        CompileStage::Hir,
        CompileStage::Mir,
        CompileStage::MirCfg,
        CompileStage::Expanded,
        CompileStage::Llvm,
        CompileStage::Asm,
    ]
}

} // verus!
