//! Creation of a product: every image of the request is checked, in order,
//! before the product is made and written.

use crate::fresh::is_random_uuid;
use crate::models::{CreateProductRequest, CreateProductRequestView, Product, ProductView};
use crate::response::{ApiResponse, ApiResponseView};
use crate::store::{InsertOutcome, InsertOutcomeView};
use crate::validator::{ImageCheck, ImageCheckView};
use vstd::prelude::*;

verus! {

/// A creation request that waits for the check of one of its images.
#[derive(Debug)]
pub struct PendingCheck {
    request: CreateProductRequest,
    index: usize,
}

/// Mathematical view of [`PendingCheck`]: the request, and the position of
/// the image whose check is awaited.
pub struct PendingCheckView {
    pub request: CreateProductRequestView,
    pub index: nat,
}

impl View for PendingCheck {
    type V = PendingCheckView;

    closed spec fn view(&self) -> PendingCheckView {
        PendingCheckView { request: self.request@, index: self.index as nat }
    }
}

/// A creation request whose product waits to be written.
#[derive(Debug)]
pub struct PendingInsert {
    id: Option<String>,
}

impl View for PendingInsert {
    /// The identifier of the product.
    type V = Option<Seq<char>>;

    closed spec fn view(&self) -> Option<Seq<char>> {
        self.id.deep_view()
    }
}

/// What a creation request needs next.
#[derive(Debug)]
pub enum CreateStep {
    /// Check the image at `url()` of the pending request, then resume it
    /// with what the check found.
    CheckImage(PendingCheck),
    /// Write the product to the store, then resume the pending request with
    /// the outcome.
    Insert(PendingInsert, Product),
    /// Answer the request.
    Respond(ApiResponse),
}

/// Mathematical view of [`CreateStep`].
pub enum CreateStepView {
    CheckImage(PendingCheckView),
    Insert { id: Option<Seq<char>>, product: ProductView },
    Respond(ApiResponseView),
}

impl View for CreateStep {
    type V = CreateStepView;

    open spec fn view(&self) -> CreateStepView {
        match self {
            CreateStep::CheckImage(pending) => CreateStepView::CheckImage(pending@),
            CreateStep::Insert(pending, product) => CreateStepView::Insert {
                id: pending@,
                product: product@,
            },
            CreateStep::Respond(response) => CreateStepView::Respond(response@),
        }
    }
}

/// `product` is a new product for `request`: it has the request's fields, a
/// random identifier and no `image_url`.
pub open spec fn is_new_product(request: CreateProductRequestView, product: ProductView) -> bool {
    &&& product.id matches Some(id)
    &&& is_random_uuid(id)
    &&& product == ProductView::created(request, id, product.created_at)
}

/// `step` is what `request` needs once its first `checked` images were
/// found accessible: the check of the next image or, if none is left, the
/// writing of a new product.
pub open spec fn proceeds(request: CreateProductRequestView, checked: nat, step: CreateStepView) -> bool {
    if checked < request.images.len() {
        step == CreateStepView::CheckImage(PendingCheckView { request, index: checked })
    } else {
        &&& step matches CreateStepView::Insert { id, product }
        &&& is_new_product(request, product)
        &&& id == product.id
    }
}

/// `step` is what follows when the check that `pending` waits for found
/// `check`: the request goes on if the image is accessible, and is answered
/// at once if it is not.
pub open spec fn follows(pending: PendingCheckView, check: ImageCheckView, step: CreateStepView) -> bool {
    match check {
        ImageCheckView::Accessible => proceeds(pending.request, pending.index + 1, step),
        ImageCheckView::Inaccessible => step == CreateStepView::Respond(
            ApiResponseView::image_inaccessible(
                pending.index + 1,
                pending.request.images[pending.index as int],
            ),
        ),
        ImageCheckView::TransportFailed(reason) => step == CreateStepView::Respond(
            ApiResponseView::image_check_failed(pending.index + 1, reason),
        ),
    }
}

/// The answer to a creation request whose product, with identifier `id`,
/// was handed to the store.
pub open spec fn insert_response(id: Option<Seq<char>>, outcome: InsertOutcomeView) -> ApiResponseView {
    match outcome {
        InsertOutcomeView::Inserted(inserted_id) => ApiResponseView::created(id, inserted_id),
        InsertOutcomeView::Failed => ApiResponseView::store_failure("Failed to create product"@),
    }
}

/// What `request` needs after its first `checked` images passed.
fn proceed(request: CreateProductRequest, checked: usize) -> (step: CreateStep)
    requires
        checked <= request.images.len(),
    ensures
        proceeds(request@, checked as nat, step@),
{
    if checked < request.images.len() {
        CreateStep::CheckImage(PendingCheck { request, index: checked })
    } else {
        let product = Product::from(request);
        let id = match &product.id {
            Some(id) => Some(id.clone()),
            None => None,
        };
        CreateStep::Insert(PendingInsert { id }, product)
    }
}

/// Starts the handling of a creation request. The images are checked one
/// after the other, in their order; a request without images goes straight
/// to the store.
pub fn create_product(request: CreateProductRequest) -> (step: CreateStep)
    ensures
        proceeds(request@, 0, step@),
{
    proceed(request, 0)
}

impl PendingCheck {
    #[verifier::type_invariant]
    spec fn index_in_range(self) -> bool {
        self.index < self.request.images.len()
    }

    /// Position of the image to check, counted from zero.
    pub fn index(&self) -> (index: usize)
        ensures
            index == self@.index,
            index < self@.request.images.len(),
    {
        proof {
            use_type_invariant(self);
        }
        self.index
    }

    /// The URL to check.
    pub fn url(&self) -> (url: &String)
        ensures
            self@.index < self@.request.images.len(),
            url@ == self@.request.images[self@.index as int],
    {
        proof {
            use_type_invariant(self);
        }
        &self.request.images[self.index]
    }

    /// Goes on with what the check found. An image that is not accessible,
    /// or whose check failed on the way, ends the handling with a refusal
    /// that names it; the images after it are not checked.
    pub fn resume(self, check: ImageCheck) -> (step: CreateStep)
        ensures
            follows(self@, check@, step@),
    {
        proof {
            use_type_invariant(&self);
        }
        match check {
            ImageCheck::Accessible => proceed(self.request, self.index + 1),
            ImageCheck::Inaccessible => CreateStep::Respond(
                ApiResponse::image_inaccessible(
                    self.index + 1,
                    self.request.images[self.index].as_str(),
                ),
            ),
            ImageCheck::TransportFailed(reason) => CreateStep::Respond(
                ApiResponse::image_check_failed(self.index + 1, reason.as_str()),
            ),
        }
    }
}

impl PendingInsert {
    /// Answers the request according to what the store did with the
    /// product.
    pub fn resume(self, outcome: InsertOutcome) -> (response: ApiResponse)
        ensures
            response@ == insert_response(self@, outcome@),
    {
        match outcome {
            InsertOutcome::Inserted(inserted_id) => ApiResponse::created(self.id, inserted_id),
            InsertOutcome::Failed => ApiResponse::store_failure("Failed to create product"),
        }
    }
}

/// Step `k` of `steps` asks for the check of an image, and step `k + 1` is
/// what follows when that check finds `checks[k]`.
pub open spec fn answered(steps: Seq<CreateStepView>, checks: Seq<ImageCheckView>, k: int) -> bool {
    &&& steps[k] matches CreateStepView::CheckImage(pending)
    &&& follows(pending, checks[k], steps[k + 1])
}

/// `steps` is the whole course of the handling of `request` up to its
/// answer or to the writing of its product, where `checks[k]` is what the
/// check of the image at position `k` finds if it is made.
pub open spec fn is_run(
    request: CreateProductRequestView,
    checks: Seq<ImageCheckView>,
    steps: Seq<CreateStepView>,
) -> bool {
    &&& checks.len() == request.images.len()
    &&& 1 <= steps.len() <= checks.len() + 1
    &&& proceeds(request, 0, steps[0])
    &&& forall|k: int| 0 <= k < steps.len() - 1 ==> #[trigger] answered(steps, checks, k)
    &&& !(steps.last() is CheckImage)
}

/// In a run, every step but the last asks for the check of the image at
/// its own position, and every check but the last one made finds its image
/// accessible.
proof fn lemma_run_checks_in_order(
    request: CreateProductRequestView,
    checks: Seq<ImageCheckView>,
    steps: Seq<CreateStepView>,
    k: int,
)
    requires
        is_run(request, checks, steps),
        0 <= k < steps.len() - 1,
    ensures
        steps[k] == CreateStepView::CheckImage(PendingCheckView { request, index: k as nat }),
        k < request.images.len(),
        forall|j: int| 0 <= j < k ==> checks[j] == ImageCheckView::Accessible,
    decreases k,
{
    assert(answered(steps, checks, k));
    if k > 0 {
        lemma_run_checks_in_order(request, checks, steps, k - 1);
        assert(answered(steps, checks, k - 1));
    }
}

/// A request with an image that is not accessible is refused and nothing
/// is written: the run ends at the first such image, with an answer in the
/// 400s that names it, and no step of the run hands a product to the store.
pub proof fn lemma_unreachable_image_is_refused(
    request: CreateProductRequestView,
    checks: Seq<ImageCheckView>,
    steps: Seq<CreateStepView>,
)
    requires
        is_run(request, checks, steps),
        exists|i: int| 0 <= i < checks.len() && checks[i] != ImageCheckView::Accessible,
    ensures
        steps.len() >= 2,
        forall|j: int| 0 <= j < steps.len() - 2 ==> checks[j] == ImageCheckView::Accessible,
        checks[steps.len() - 2] != ImageCheckView::Accessible,
        steps.last() matches CreateStepView::Respond(response) && response.is_client_error(),
        follows(
            PendingCheckView { request, index: (steps.len() - 2) as nat },
            checks[steps.len() - 2],
            steps.last(),
        ),
        forall|j: int| 0 <= j < steps.len() ==> !(#[trigger] steps[j] is Insert),
{
    let last = steps.len() - 1;
    let bad = choose|i: int| 0 <= i < checks.len() && checks[i] != ImageCheckView::Accessible;
    if last == 0 {
        assert(bad < request.images.len());
    } else {
        lemma_run_checks_in_order(request, checks, steps, last - 1);
        assert(answered(steps, checks, last - 1));
        if checks[last - 1] == ImageCheckView::Accessible {
            assert(last == request.images.len());
            assert(false);
        }
        assert forall|j: int| 0 <= j < steps.len() implies !(#[trigger] steps[j] is Insert) by {
            if j < last {
                lemma_run_checks_in_order(request, checks, steps, j);
            }
        }
    }
}

/// A request whose images are all accessible has exactly one product
/// written: every image is checked, in order, and the last step hands the
/// store a new product with the request's images and no `image_url`.
pub proof fn lemma_reachable_images_insert_once(
    request: CreateProductRequestView,
    checks: Seq<ImageCheckView>,
    steps: Seq<CreateStepView>,
)
    requires
        is_run(request, checks, steps),
        forall|i: int| 0 <= i < checks.len() ==> checks[i] == ImageCheckView::Accessible,
    ensures
        steps.len() == request.images.len() + 1,
        forall|j: int| 0 <= j < steps.len() - 1 ==> #[trigger] steps[j] is CheckImage,
        steps.last() matches CreateStepView::Insert { id, product } && is_new_product(
            request,
            product,
        ) && id == product.id && product.images == request.images && product.image_url is None,
{
    let last = steps.len() - 1;
    if last > 0 {
        lemma_run_checks_in_order(request, checks, steps, last - 1);
        assert(answered(steps, checks, last - 1));
    }
    assert forall|j: int| 0 <= j < steps.len() - 1 implies #[trigger] steps[j] is CheckImage by {
        lemma_run_checks_in_order(request, checks, steps, j);
    }
}

/// A new product is in the current form: its images are the request's and
/// its `image_url` is unset, so reading it back changes nothing.
pub proof fn lemma_new_product_is_current(request: CreateProductRequestView, product: ProductView)
    requires
        is_new_product(request, product),
    ensures
        product.images == request.images,
        product.image_url is None,
        product.is_current(),
        product.migrated() == product,
{
}

/// Once the product is handed to the store, the answer is in the 200s if
/// it was written and in the 500s if not. A product that was written is
/// reported under its own identifier.
pub proof fn lemma_insert_answer(id: Option<Seq<char>>, outcome: InsertOutcomeView)
    ensures
        outcome is Inserted ==> insert_response(id, outcome).is_success() && insert_response(
            id,
            outcome,
        ).body->Created_id == id,
        outcome is Failed ==> insert_response(id, outcome).is_server_error(),
{
}

} // verus!
