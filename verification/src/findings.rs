//! The findings the analyzer's scans report, and the buckets a whole analysis
//! collects them in.
use vstd::prelude::*;

verus! {

/// An explicit panic, `unwrap` or `expect` found in a function.
pub struct PanicIssue {
    pub function_name: String,
    pub issue_type: String,
    pub location: String,
}

/// An arithmetic operation that may overflow unchecked.
pub struct ArithmeticIssue {
    pub function_name: String,
    pub operation: String,
    pub suggestion: String,
    pub location: String,
}

/// An unsafe language pattern at a source line.
pub struct UnsafePattern {
    /// The name of the pattern's kind, as the analyzer spells it.
    pub pattern_type: String,
    pub line: usize,
    pub snippet: String,
}

/// A ledger entry whose estimated size exceeds or approaches the limit.
pub struct SizeWarning {
    pub struct_name: String,
    pub estimated_size: usize,
    pub limit: usize,
    /// The name of the warning's level, as the analyzer spells it.
    pub level: String,
}

/// Two storage keys that may collide.
pub struct StorageCollisionIssue {
    pub key_value: String,
    pub key_type: String,
    pub location: String,
    pub message: String,
}

impl Clone for PanicIssue {
    fn clone(&self) -> (r: Self)
        ensures
            r == *self,
    {
        PanicIssue {
            function_name: self.function_name.clone(),
            issue_type: self.issue_type.clone(),
            location: self.location.clone(),
        }
    }
}

impl Clone for ArithmeticIssue {
    fn clone(&self) -> (r: Self)
        ensures
            r == *self,
    {
        ArithmeticIssue {
            function_name: self.function_name.clone(),
            operation: self.operation.clone(),
            suggestion: self.suggestion.clone(),
            location: self.location.clone(),
        }
    }
}

impl Clone for UnsafePattern {
    fn clone(&self) -> (r: Self)
        ensures
            r == *self,
    {
        UnsafePattern {
            pattern_type: self.pattern_type.clone(),
            line: self.line,
            snippet: self.snippet.clone(),
        }
    }
}

impl Clone for SizeWarning {
    fn clone(&self) -> (r: Self)
        ensures
            r == *self,
    {
        SizeWarning {
            struct_name: self.struct_name.clone(),
            estimated_size: self.estimated_size,
            limit: self.limit,
            level: self.level.clone(),
        }
    }
}

impl Clone for StorageCollisionIssue {
    fn clone(&self) -> (r: Self)
        ensures
            r == *self,
    {
        StorageCollisionIssue {
            key_value: self.key_value.clone(),
            key_type: self.key_type.clone(),
            location: self.location.clone(),
            message: self.message.clone(),
        }
    }
}

/// The findings of an analysis, one list per kind, in the order the scans
/// reported them.
pub struct AnalysisBuckets {
    /// Public functions that change state without an authentication guard.
    pub auth_gaps: Vec<String>,
    pub panics: Vec<PanicIssue>,
    pub arithmetic_issues: Vec<ArithmeticIssue>,
    pub unsafe_patterns: Vec<UnsafePattern>,
    pub size_warnings: Vec<SizeWarning>,
    pub collisions: Vec<StorageCollisionIssue>,
}

impl AnalysisBuckets {
    /// How many findings the buckets hold, over all kinds.
    pub open spec fn finding_count(&self) -> nat {
        self.auth_gaps@.len() + self.panics@.len() + self.arithmetic_issues@.len()
            + self.unsafe_patterns@.len() + self.size_warnings@.len() + self.collisions@.len()
    }

    /// Some finding of a critical kind: an authentication gap, a panic or unchecked arithmetic.
    pub open spec fn spec_has_critical(&self) -> bool {
        self.auth_gaps@.len() > 0 || self.panics@.len() > 0 || self.arithmetic_issues@.len() > 0
    }

    /// Some finding of a high kind: a ledger size warning, an unsafe pattern or a
    /// storage key collision.
    pub open spec fn spec_has_high(&self) -> bool {
        self.size_warnings@.len() > 0 || self.unsafe_patterns@.len() > 0 || self.collisions@.len()
            > 0
    }

    /// Buckets with no findings.
    pub fn new() -> (r: Self)
        ensures
            r.auth_gaps@.len() == 0,
            r.panics@.len() == 0,
            r.arithmetic_issues@.len() == 0,
            r.unsafe_patterns@.len() == 0,
            r.size_warnings@.len() == 0,
            r.collisions@.len() == 0,
    {
        AnalysisBuckets {
            auth_gaps: Vec::new(),
            panics: Vec::new(),
            arithmetic_issues: Vec::new(),
            unsafe_patterns: Vec::new(),
            size_warnings: Vec::new(),
            collisions: Vec::new(),
        }
    }

    /// Adds the findings of one more file after those already held, kind by kind.
    pub fn absorb(&mut self, file: AnalysisBuckets)
        ensures
            final(self).auth_gaps@ == old(self).auth_gaps@ + file.auth_gaps@,
            final(self).panics@ == old(self).panics@ + file.panics@,
            final(self).arithmetic_issues@ == old(self).arithmetic_issues@
                + file.arithmetic_issues@,
            final(self).unsafe_patterns@ == old(self).unsafe_patterns@ + file.unsafe_patterns@,
            final(self).size_warnings@ == old(self).size_warnings@ + file.size_warnings@,
            final(self).collisions@ == old(self).collisions@ + file.collisions@,
    {
        let mut file = file;
        self.auth_gaps.append(&mut file.auth_gaps);
        self.panics.append(&mut file.panics);
        self.arithmetic_issues.append(&mut file.arithmetic_issues);
        self.unsafe_patterns.append(&mut file.unsafe_patterns);
        self.size_warnings.append(&mut file.size_warnings);
        self.collisions.append(&mut file.collisions);
    }

    /// The number of findings over all kinds, or `None` where it does not fit in a `usize`.
    pub fn total_findings(&self) -> (r: Option<usize>)
        ensures
            r matches Some(n) ==> n == self.finding_count(),
            r is None <==> self.finding_count() > usize::MAX,
    {
        let total: u128 = self.auth_gaps.len() as u128 + self.panics.len() as u128
            + self.arithmetic_issues.len() as u128 + self.unsafe_patterns.len() as u128
            + self.size_warnings.len() as u128 + self.collisions.len() as u128;
        if total <= usize::MAX as u128 {
            Some(total as usize)
        } else {
            None
        }
    }

    /// Whether some finding is of a critical kind.
    pub fn has_critical(&self) -> (r: bool)
        ensures
            r == self.spec_has_critical(),
    {
        !self.auth_gaps.is_empty() || !self.panics.is_empty() || !self.arithmetic_issues.is_empty()
    }

    /// Whether some finding is of a high kind.
    pub fn has_high(&self) -> (r: bool)
        ensures
            r == self.spec_has_high(),
    {
        !self.size_warnings.is_empty() || !self.unsafe_patterns.is_empty()
            || !self.collisions.is_empty()
    }
}

} // verus!
