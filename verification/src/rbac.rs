//! The permissions under which an instance's jobs run: a service account with
//! a role in the instance's namespace, and a cluster role for the custom
//! resource definitions that a package may bring.

use vstd::prelude::*;
use crate::controller::{AppInstanceLike, APPLIER_SERVICE_ACCOUNT};
use crate::objects::{
    ObjectHeader, ObjectHeaderView, PolicyRule, PolicyRuleView, Role, RoleBinding,
    RoleBindingView, RoleRef, RoleRefView, RoleView, ServiceAccount, ServiceAccountView, Subject,
    SubjectView,
};
use crate::text::{no_words, push_str};

verus! {

/// The identity under which the operator writes its objects.
pub const FIELD_MANAGER: &'static str = "kubit";

/// The API group of roles and bindings.
pub const RBAC_API_GROUP: &'static str = "rbac.authorization.k8s.io";

/// The service account, role and role binding of an instance's namespace.
#[derive(Clone, Debug)]
pub struct NamespacedRoles {
    pub service_account: ServiceAccount,
    pub role: Role,
    pub role_binding: RoleBinding,
}

/// The cluster role and its binding.
#[derive(Clone, Debug)]
pub struct ClusterRoles {
    pub role: Role,
    pub role_binding: RoleBinding,
}

/// Everything in every API group, with the verbs that an apply with pruning
/// needs.
pub open spec fn namespaced_rule() -> PolicyRuleView {
    PolicyRuleView {
        api_groups: seq!["*"@],
        resources: seq!["*"@],
        verbs: seq!["create"@, "update"@, "get"@, "list"@, "patch"@, "watch"@, "delete"@],
    }
}

/// Custom resource definitions, with the verbs of their life cycle.
pub open spec fn crd_rule() -> PolicyRuleView {
    PolicyRuleView {
        api_groups: seq!["apiextensions.k8s.io"@],
        resources: seq!["customresourcedefinitions"@],
        verbs: seq!["delete"@, "create"@, "patch"@, "list"@, "get"@],
    }
}

/// The name of the cluster role and of its binding.
pub open spec fn crd_role_name() -> Seq<char> {
    APPLIER_SERVICE_ACCOUNT@ + "-crd"@
}

impl AppInstanceLike {
    /// The header of the namespaced objects.
    pub open spec fn namespaced_header_spec(&self) -> ObjectHeaderView {
        ObjectHeaderView {
            name: APPLIER_SERVICE_ACCOUNT@,
            namespace: self.instance_spec().metadata.namespace.deep_view(),
            owner_references: self.owned_by_spec(),
        }
    }

    /// The header of the cluster-wide objects.
    pub open spec fn cluster_header_spec(&self) -> ObjectHeaderView {
        ObjectHeaderView {
            name: crd_role_name(),
            namespace: None,
            owner_references: self.owned_by_spec(),
        }
    }

    /// The service account of the instance's namespace.
    pub open spec fn service_account_spec(&self) -> ServiceAccountView {
        ServiceAccountView { metadata: self.namespaced_header_spec() }
    }

    /// The role of the instance's namespace.
    pub open spec fn role_spec(&self) -> RoleView {
        RoleView { metadata: self.namespaced_header_spec(), rules: seq![namespaced_rule()] }
    }

    /// The binding of the namespace's role to its service account.
    pub open spec fn role_binding_spec(&self) -> RoleBindingView {
        RoleBindingView {
            metadata: self.namespaced_header_spec(),
            role_ref: RoleRefView {
                api_group: RBAC_API_GROUP@,
                kind: "Role"@,
                name: APPLIER_SERVICE_ACCOUNT@,
            },
            subjects: seq![
                SubjectView {
                    kind: "ServiceAccount"@,
                    name: APPLIER_SERVICE_ACCOUNT@,
                    namespace: None,
                },
            ],
        }
    }

    /// The cluster role.
    pub open spec fn cluster_role_spec(&self) -> RoleView {
        RoleView { metadata: self.cluster_header_spec(), rules: seq![crd_rule()] }
    }

    /// The binding of the cluster role to the service account of the
    /// instance's namespace.
    pub open spec fn cluster_role_binding_spec(&self) -> RoleBindingView {
        RoleBindingView {
            metadata: self.cluster_header_spec(),
            role_ref: RoleRefView {
                api_group: RBAC_API_GROUP@,
                kind: "ClusterRole"@,
                name: crd_role_name(),
            },
            subjects: seq![
                SubjectView {
                    kind: "ServiceAccount"@,
                    name: APPLIER_SERVICE_ACCOUNT@,
                    namespace: Some(self.instance_spec().metadata.namespace_any_spec()),
                },
            ],
        }
    }

    fn namespaced_header(&self) -> (r: ObjectHeader)
        ensures
            r@ == self.namespaced_header_spec(),
    {
        ObjectHeader {
            name: String::from_str(APPLIER_SERVICE_ACCOUNT),
            namespace: self.instance().namespace(),
            owner_references: self.owned_by(),
        }
    }

    fn cluster_header(&self) -> (r: ObjectHeader)
        ensures
            r@ == self.cluster_header_spec(),
    {
        ObjectHeader {
            name: String::from_str(APPLIER_SERVICE_ACCOUNT).concat("-crd"),
            namespace: None,
            owner_references: self.owned_by(),
        }
    }

    /// The service account, role and role binding under which the instance's
    /// jobs run in its namespace. Each is owned by the instance's carrier.
    pub fn setup_namespaced_roles(&self) -> (r: NamespacedRoles)
        ensures
            r.service_account@ == self.service_account_spec(),
            r.role@ == self.role_spec(),
            r.role_binding@ == self.role_binding_spec(),
    {
        let mut api_groups = no_words();
        push_str(&mut api_groups, "*");
        let mut resources = no_words();
        push_str(&mut resources, "*");
        let mut verbs = no_words();
        push_str(&mut verbs, "create");
        push_str(&mut verbs, "update");
        push_str(&mut verbs, "get");
        push_str(&mut verbs, "list");
        push_str(&mut verbs, "patch");
        push_str(&mut verbs, "watch");
        push_str(&mut verbs, "delete");
        let rule = PolicyRule { api_groups: api_groups, resources: resources, verbs: verbs };
        let mut rules: Vec<PolicyRule> = Vec::new();
        rules.push(rule);
        let subject = Subject {
            kind: String::from_str("ServiceAccount"),
            name: String::from_str(APPLIER_SERVICE_ACCOUNT),
            namespace: None,
        };
        let mut subjects: Vec<Subject> = Vec::new();
        subjects.push(subject);
        proof {
            assert(rule.api_groups.deep_view() =~= seq!["*"@]);
            assert(rule.resources.deep_view() =~= seq!["*"@]);
            assert(rule.verbs.deep_view() =~= namespaced_rule().verbs);
            assert(rules.deep_view() =~= seq![namespaced_rule()]);
            assert(subjects.deep_view() =~= seq![subject@]);
        }
        NamespacedRoles {
            service_account: ServiceAccount { metadata: self.namespaced_header() },
            role: Role { metadata: self.namespaced_header(), rules: rules },
            role_binding: RoleBinding {
                metadata: self.namespaced_header(),
                role_ref: RoleRef {
                    api_group: String::from_str(RBAC_API_GROUP),
                    kind: String::from_str("Role"),
                    name: String::from_str(APPLIER_SERVICE_ACCOUNT),
                },
                subjects: subjects,
            },
        }
    }

    /// The cluster role that lets the instance's jobs manage custom resource
    /// definitions, and its binding. Each is owned by the instance's carrier.
    pub fn setup_cluster_roles(&self) -> (r: ClusterRoles)
        ensures
            r.role@ == self.cluster_role_spec(),
            r.role_binding@ == self.cluster_role_binding_spec(),
    {
        let ns = self.instance().namespace_any();
        let mut api_groups = no_words();
        push_str(&mut api_groups, "apiextensions.k8s.io");
        let mut resources = no_words();
        push_str(&mut resources, "customresourcedefinitions");
        let mut verbs = no_words();
        push_str(&mut verbs, "delete");
        push_str(&mut verbs, "create");
        push_str(&mut verbs, "patch");
        push_str(&mut verbs, "list");
        push_str(&mut verbs, "get");
        let rule = PolicyRule { api_groups: api_groups, resources: resources, verbs: verbs };
        let mut rules: Vec<PolicyRule> = Vec::new();
        rules.push(rule);
        let subject = Subject {
            kind: String::from_str("ServiceAccount"),
            name: String::from_str(APPLIER_SERVICE_ACCOUNT),
            namespace: Some(ns),
        };
        let mut subjects: Vec<Subject> = Vec::new();
        subjects.push(subject);
        proof {
            assert(rule.api_groups.deep_view() =~= crd_rule().api_groups);
            assert(rule.resources.deep_view() =~= crd_rule().resources);
            assert(rule.verbs.deep_view() =~= crd_rule().verbs);
            assert(rules.deep_view() =~= seq![crd_rule()]);
            assert(subjects.deep_view() =~= seq![subject@]);
        }
        ClusterRoles {
            role: Role { metadata: self.cluster_header(), rules: rules },
            role_binding: RoleBinding {
                metadata: self.cluster_header(),
                role_ref: RoleRef {
                    api_group: String::from_str(RBAC_API_GROUP),
                    kind: String::from_str("ClusterRole"),
                    name: String::from_str(APPLIER_SERVICE_ACCOUNT).concat("-crd"),
                },
                subjects: subjects,
            },
        }
    }
}

} // verus!
